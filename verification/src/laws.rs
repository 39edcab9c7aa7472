//! The provable guarantees of the orchestration: atomicity of a schema
//! pass, the workspace-binding invariant, staged permission escalation,
//! and idempotence of a full bootstrap run.

use vstd::prelude::*;

use crate::model::ConfigSpec;
use crate::model::PasswordsSpec;
use crate::model::Report;
use crate::model::ServerSpec;
use crate::model::SpecOutcome;
use crate::model::apply_schema_spec;
use crate::model::assoc_lookup;
use crate::model::bind_spec;
use crate::model::binding_of;
use crate::model::bootstrap_spec;
use crate::model::ensure_database_spec;
use crate::model::ensure_role_spec;
use crate::model::first_failing;
use crate::model::grant_spec;
use crate::model::has_database;
use crate::model::has_role;
use crate::model::merged_schema;
use crate::model::schema_lookup;
use crate::model::schema_stmts;
use crate::model::set_schema;
use crate::provision::GrantLevel;

verus! {

/// A workspace just bound is found bound.
pub proof fn lemma_assoc_push_found(pairs: Seq<(Seq<char>, Seq<char>)>, k: Seq<char>, v: Seq<char>)
    requires
        assoc_lookup(pairs, k) is None,
    ensures
        assoc_lookup(pairs.push((k, v)), k) == Some(v),
    decreases pairs.len(),
{
    if pairs.len() == 0 {
        assert(pairs.push((k, v))[0] == (k, v));
    } else {
        assert(pairs.push((k, v))[0] == pairs[0]);
        assert(pairs.push((k, v)).drop_first() =~= pairs.drop_first().push((k, v)));
        lemma_assoc_push_found(pairs.drop_first(), k, v);
    }
}

/// What a schema lookup sees after a schema store.
pub proof fn lemma_schema_lookup_after_set(
    schemas: Seq<(Seq<char>, Seq<Seq<char>>)>,
    db2: Seq<char>,
    v: Seq<Seq<char>>,
    db: Seq<char>,
)
    ensures
        schema_lookup(set_schema(schemas, db2, v), db) == (if db == db2 {
            Some(v)
        } else {
            schema_lookup(schemas, db)
        }),
    decreases schemas.len(),
{
    if schemas.len() == 0 {
        let out = set_schema(schemas, db2, v);
        assert(out == seq![(db2, v)]);
        assert(out[0] == (db2, v));
        assert(out.len() == 1);
        if db == db2 {
            assert(schema_lookup(out, db) == Some(v));
        } else {
            assert(out.drop_first().len() == 0);
            assert(schema_lookup(out.drop_first(), db) is None);
            assert(schema_lookup(out, db) is None);
        }
    } else if schemas[0].0 == db2 {
        let out = seq![(db2, v)] + schemas.drop_first();
        assert(set_schema(schemas, db2, v) == out);
        assert(out[0] == (db2, v));
        assert(out.drop_first() =~= schemas.drop_first());
        if db == db2 {
            assert(schema_lookup(out, db) == Some(v));
        } else {
            assert(schema_lookup(out, db) == schema_lookup(out.drop_first(), db));
            assert(schema_lookup(schemas, db) == schema_lookup(schemas.drop_first(), db));
        }
    } else {
        let out = seq![schemas[0]] + set_schema(schemas.drop_first(), db2, v);
        assert(set_schema(schemas, db2, v) == out);
        assert(out[0] == schemas[0]);
        assert(out.len() > 0);
        assert(out.drop_first() =~= set_schema(schemas.drop_first(), db2, v));
        lemma_schema_lookup_after_set(schemas.drop_first(), db2, v, db);
        if out[0].0 == db {
            assert(schema_lookup(out, db) == Some(out[0].1));
            assert(schema_lookup(schemas, db) == Some(schemas[0].1));
        } else {
            assert(schema_lookup(out, db) == schema_lookup(out.drop_first(), db));
            assert(schema_lookup(schemas, db) == schema_lookup(schemas.drop_first(), db));
        }
    }
}

/// Storing back the list a database already has changes nothing.
pub proof fn lemma_set_schema_identity(
    schemas: Seq<(Seq<char>, Seq<Seq<char>>)>,
    db: Seq<char>,
    v: Seq<Seq<char>>,
)
    requires
        schema_lookup(schemas, db) == Some(v),
    ensures
        set_schema(schemas, db, v) == schemas,
    decreases schemas.len(),
{
    if schemas.len() == 0 {
    } else if schemas[0].0 == db {
        assert(schemas[0].1 == v);
        assert((db, v) == schemas[0]);
        assert(seq![(db, v)] + schemas.drop_first() =~= schemas);
    } else {
        lemma_set_schema_identity(schemas.drop_first(), db, v);
        assert(seq![schemas[0]] + set_schema(schemas.drop_first(), db, v) =~= schemas);
    }
}

/// Merging never loses a committed statement.
pub proof fn lemma_merged_monotone(existing: Seq<Seq<char>>, stmts: Seq<Seq<char>>, x: Seq<char>)
    requires
        existing.contains(x),
    ensures
        merged_schema(existing, stmts).contains(x),
    decreases stmts.len(),
{
    if stmts.len() > 0 {
        let extended = if existing.contains(stmts[0]) {
            existing
        } else {
            existing.push(stmts[0])
        };
        let witness = choose|i: int| 0 <= i < existing.len() && existing[i] == x;
        assert(extended[witness] == x);
        lemma_merged_monotone(extended, stmts.drop_first(), x);
    }
}

/// After a successful pass every statement of the pass is committed.
pub proof fn lemma_merged_contains_all(existing: Seq<Seq<char>>, stmts: Seq<Seq<char>>)
    ensures
        forall|i: int|
            0 <= i < stmts.len() ==> merged_schema(existing, stmts).contains(#[trigger] stmts[i]),
    decreases stmts.len(),
{
    if stmts.len() > 0 {
        let extended = if existing.contains(stmts[0]) {
            existing
        } else {
            existing.push(stmts[0])
        };
        if !existing.contains(stmts[0]) {
            assert(extended[existing.len() as int] == stmts[0]);
        }
        assert(extended.contains(stmts[0]));
        lemma_merged_monotone(extended, stmts.drop_first(), stmts[0]);
        lemma_merged_contains_all(extended, stmts.drop_first());
        assert forall|i: int|
            0 <= i < stmts.len() implies merged_schema(existing, stmts).contains(
            #[trigger] stmts[i],
        ) by {
            if i > 0 {
                assert(stmts.drop_first()[i - 1] == stmts[i]);
            }
        }
    }
}

/// Re-running a pass whose statements are all committed changes nothing.
pub proof fn lemma_merged_identity(existing: Seq<Seq<char>>, stmts: Seq<Seq<char>>)
    requires
        forall|i: int| 0 <= i < stmts.len() ==> existing.contains(#[trigger] stmts[i]),
    ensures
        merged_schema(existing, stmts) == existing,
    decreases stmts.len(),
{
    if stmts.len() > 0 {
        assert(existing.contains(stmts[0]));
        assert forall|i: int|
            0 <= i < stmts.drop_first().len() implies existing.contains(
            #[trigger] stmts.drop_first()[i],
        ) by {
            assert(stmts.drop_first()[i] == stmts[i + 1]);
        }
        lemma_merged_identity(existing, stmts.drop_first());
    }
}

/// When some statement of a pass is rejected, the first rejected one is
/// found: it is in the pass, the server rejects it, and everything before
/// it is accepted.
pub proof fn lemma_first_failing_found(failing: Seq<Seq<char>>, stmts: Seq<Seq<char>>)
    requires
        exists|i: int| 0 <= i < stmts.len() && failing.contains(#[trigger] stmts[i]),
    ensures
        0 <= first_failing(failing, stmts) < stmts.len(),
        failing.contains(stmts[first_failing(failing, stmts)]),
        forall|j: int|
            0 <= j < first_failing(failing, stmts) ==> !failing.contains(#[trigger] stmts[j]),
    decreases stmts.len(),
{
    if failing.contains(stmts[0]) {
    } else {
        let i = choose|i: int| 0 <= i < stmts.len() && failing.contains(#[trigger] stmts[i]);
        assert(i >= 1);
        assert(stmts.drop_first()[i - 1] == stmts[i]);
        lemma_first_failing_found(failing, stmts.drop_first());
        let rest = first_failing(failing, stmts.drop_first());
        assert(stmts.drop_first()[rest] == stmts[rest + 1]);
        assert forall|j: int|
            0 <= j < first_failing(failing, stmts) implies !failing.contains(
            #[trigger] stmts[j],
        ) by {
            if j > 0 {
                assert(stmts.drop_first()[j - 1] == stmts[j]);
            }
        }
    }
}

/// Atomicity of a schema-application pass: if the server rejects any
/// statement of the pass, the pass fails — with the first rejected
/// statement, every earlier statement having been accepted — and, the
/// transition returning no new state, no table from the pass exists
/// afterward: the caller's state is exactly the state before the pass.
pub proof fn lemma_apply_schema_atomic(s: ServerSpec, db: Seq<char>, stmts: Seq<Seq<char>>)
    requires
        exists|i: int| 0 <= i < stmts.len() && s.failing.contains(#[trigger] stmts[i]),
    ensures
        apply_schema_spec(s, db, stmts) matches Err(t) && t == stmts[first_failing(
            s.failing,
            stmts,
        )],
        s.failing.contains(stmts[first_failing(s.failing, stmts)]),
        forall|j: int|
            0 <= j < first_failing(s.failing, stmts) ==> !s.failing.contains(#[trigger] stmts[j]),
{
    lemma_first_failing_found(s.failing, stmts);
}

/// A pass the server wholly accepts commits.
pub proof fn lemma_apply_schema_ok(s: ServerSpec, db: Seq<char>, stmts: Seq<Seq<char>>)
    requires
        forall|i: int| 0 <= i < stmts.len() ==> !s.failing.contains(#[trigger] stmts[i]),
    ensures
        apply_schema_spec(s, db, stmts) is Ok,
{
    crate::model::lemma_first_failing_none(s.failing, stmts);
}

/// The workspace-binding invariant: after workspace `w` is bound to
/// database `d1`, binding `w` to a different `d2` fails with a conflict
/// naming `(w, d1, d2)` and leaves the stored binding untouched, while
/// binding `w` to `d1` again succeeds as a no-op.
pub proof fn lemma_binding_invariant(
    s: ServerSpec,
    w: Seq<char>,
    d1: Seq<char>,
    d2: Seq<char>,
)
    requires
        binding_of(s, w) is None,
        d1 != d2,
    ensures
        bind_spec(s, w, d1) is Ok,
        ({
            let s1 = bind_spec(s, w, d1)->Ok_0;
            &&& binding_of(s1, w) == Some(d1)
            &&& bind_spec(s1, w, d2) == Err::<ServerSpec, (Seq<char>, Seq<char>, Seq<char>)>(
                (w, d1, d2),
            )
            &&& bind_spec(s1, w, d1) == Ok::<ServerSpec, (Seq<char>, Seq<char>, Seq<char>)>(s1)
        }),
{
    lemma_assoc_push_found(s.bindings, w, d1);
}

/// An element stays in a sequence when another is pushed.
proof fn lemma_contains_push<A>(s: Seq<A>, x: A, y: A)
    requires
        s.contains(x),
    ensures
        s.push(y).contains(x),
{
    let i = choose|i: int| 0 <= i < s.len() && s[i] == x;
    assert(s.push(y)[i] == x);
}

/// A role stays present when another role is created.
proof fn lemma_role_kept(
    roles: Seq<(Seq<char>, Seq<char>)>,
    name: Seq<char>,
    entry: (Seq<char>, Seq<char>),
)
    requires
        exists|i: int| 0 <= i < roles.len() && (#[trigger] roles[i]).0 == name,
    ensures
        exists|i: int| 0 <= i < roles.push(entry).len() && (#[trigger] roles.push(entry)[i]).0
            == name,
{
    let i = choose|i: int| 0 <= i < roles.len() && (#[trigger] roles[i]).0 == name;
    assert(roles.push(entry)[i] == roles[i]);
}

/// Idempotence of the full orchestration: once a bootstrap run has
/// completed, a second run from the resulting state performs no
/// destructive operation — the model has none — changes nothing, and
/// reports every database and role as already existing and the workspace
/// as already bound.
pub proof fn lemma_bootstrap_idempotent(cfg: ConfigSpec, pw: PasswordsSpec, s0: ServerSpec)
    requires
        bootstrap_spec(cfg, pw, s0).outcome is Done,
    ensures
        ({
            let s_done = bootstrap_spec(cfg, pw, s0).state;
            let second = bootstrap_spec(cfg, pw, s_done);
            &&& second.state == s_done
            &&& second.outcome == SpecOutcome::Done {
                report: Report {
                    auth_db_created: false,
                    main_db_created: false,
                    auth_rw_role_created: false,
                    main_ro_role_created: false,
                    main_rw_role_created: false,
                    workspace_bound: false,
                },
            }
        }),
{
    let auth_stmts = crate::schema::auth_statements_spec();
    let main_stmts = crate::schema::main_statements_spec();
    // The first run, step by step.
    let s1 = ensure_database_spec(s0, cfg.auth_db);
    let s2 = ensure_database_spec(s1, cfg.main_db);
    let s3 = ensure_role_spec(s2, cfg.auth_rw_role, pw.auth_rw);
    let s4 = ensure_role_spec(s3, cfg.main_ro_role, pw.main_ro);
    let s5 = ensure_role_spec(s4, cfg.main_rw_role, pw.main_rw);
    let a1 = apply_schema_spec(s5, cfg.auth_db, auth_stmts);
    assert(a1 is Ok);
    let s6 = a1->Ok_0;
    let b1 = bind_spec(s6, cfg.workspace, cfg.main_db);
    assert(b1 is Ok);
    let s7 = b1->Ok_0;
    let a2 = apply_schema_spec(s7, cfg.main_db, main_stmts);
    assert(a2 is Ok);
    let s8 = a2->Ok_0;
    let s9 = grant_spec(s8, cfg.main_db, cfg.main_ro_role, GrantLevel::ReadOnly);
    let s10 = grant_spec(s9, cfg.main_db, cfg.main_rw_role, GrantLevel::ReadWrite);
    let s11 = grant_spec(s10, cfg.auth_db, cfg.auth_rw_role, GrantLevel::ReadWrite);
    assert(bootstrap_spec(cfg, pw, s0).state == s11);

    // Both databases exist afterwards.
    if !has_database(s0, cfg.auth_db) {
        assert(s1.databases[s0.databases.len() as int] == cfg.auth_db);
    }
    assert(has_database(s1, cfg.auth_db));
    if !has_database(s1, cfg.main_db) {
        assert(s2.databases[s1.databases.len() as int] == cfg.main_db);
    } else {
        lemma_contains_push(s1.databases, cfg.auth_db, cfg.main_db);
    }
    if s2.databases == s1.databases {
        assert(has_database(s2, cfg.auth_db));
    } else {
        lemma_contains_push(s1.databases, cfg.auth_db, cfg.main_db);
    }
    assert(has_database(s2, cfg.auth_db));
    assert(has_database(s2, cfg.main_db));
    assert(s11.databases == s2.databases);

    // All three roles exist afterwards.
    if !has_role(s2, cfg.auth_rw_role) {
        assert(s3.roles[s2.roles.len() as int] == (cfg.auth_rw_role, pw.auth_rw));
    }
    assert(has_role(s3, cfg.auth_rw_role));
    if !has_role(s3, cfg.main_ro_role) {
        assert(s4.roles[s3.roles.len() as int] == (cfg.main_ro_role, pw.main_ro));
    }
    assert(has_role(s4, cfg.main_ro_role));
    if !has_role(s4, cfg.main_rw_role) {
        assert(s5.roles[s4.roles.len() as int] == (cfg.main_rw_role, pw.main_rw));
    }
    assert(has_role(s5, cfg.main_rw_role));
    if s4.roles != s3.roles {
        lemma_role_kept(s3.roles, cfg.auth_rw_role, (cfg.main_ro_role, pw.main_ro));
    }
    assert(has_role(s4, cfg.auth_rw_role));
    if s5.roles != s4.roles {
        lemma_role_kept(s4.roles, cfg.auth_rw_role, (cfg.main_rw_role, pw.main_rw));
        lemma_role_kept(s4.roles, cfg.main_ro_role, (cfg.main_rw_role, pw.main_rw));
    }
    assert(has_role(s5, cfg.auth_rw_role));
    assert(has_role(s5, cfg.main_ro_role));
    assert(s11.roles == s5.roles);

    // The committed schemas after the run.
    let m_auth = merged_schema(schema_stmts(s5, cfg.auth_db), auth_stmts);
    assert(s6.schemas == set_schema(s5.schemas, cfg.auth_db, m_auth));
    assert(s7.schemas == s6.schemas);
    let m_main = merged_schema(schema_stmts(s7, cfg.main_db), main_stmts);
    assert(s8.schemas == set_schema(s7.schemas, cfg.main_db, m_main));
    assert(s11.schemas == s8.schemas);

    lemma_schema_lookup_after_set(s7.schemas, cfg.main_db, m_main, cfg.auth_db);
    lemma_schema_lookup_after_set(s7.schemas, cfg.main_db, m_main, cfg.main_db);
    lemma_schema_lookup_after_set(s5.schemas, cfg.auth_db, m_auth, cfg.auth_db);
    lemma_schema_lookup_after_set(s5.schemas, cfg.auth_db, m_auth, cfg.main_db);
    assert(schema_stmts(s11, cfg.main_db) == m_main);
    lemma_merged_contains_all(schema_stmts(s5, cfg.auth_db), auth_stmts);
    lemma_merged_contains_all(schema_stmts(s7, cfg.main_db), main_stmts);
    // Every auth statement is committed on the auth database, whether or
    // not the two databases coincide.
    let x_auth = schema_stmts(s11, cfg.auth_db);
    if cfg.auth_db == cfg.main_db {
        assert(x_auth == m_main);
        assert(schema_stmts(s7, cfg.main_db) == m_auth);
        assert forall|i: int| 0 <= i < auth_stmts.len() implies x_auth.contains(
            #[trigger] auth_stmts[i],
        ) by {
            lemma_merged_monotone(m_auth, main_stmts, auth_stmts[i]);
        }
    } else {
        assert(x_auth == m_auth);
    }
    assert(forall|i: int|
        0 <= i < auth_stmts.len() ==> x_auth.contains(#[trigger] auth_stmts[i]));
    assert(forall|i: int|
        0 <= i < main_stmts.len() ==> schema_stmts(s11, cfg.main_db).contains(
            #[trigger] main_stmts[i],
        ));

    // The binding after the run.
    if binding_of(s6, cfg.workspace) is None {
        lemma_assoc_push_found(s6.bindings, cfg.workspace, cfg.main_db);
        assert(binding_of(s7, cfg.workspace) == Some(cfg.main_db));
    } else {
        assert(binding_of(s6, cfg.workspace) == Some(cfg.main_db));
        assert(s7 == s6);
    }
    assert(s11.bindings == s7.bindings);
    assert(binding_of(s11, cfg.workspace) == Some(cfg.main_db));

    // The grants after the run.
    let t_ro = (cfg.main_db, cfg.main_ro_role, GrantLevel::ReadOnly);
    let t_rw_main = (cfg.main_db, cfg.main_rw_role, GrantLevel::ReadWrite);
    let t_rw_auth = (cfg.auth_db, cfg.auth_rw_role, GrantLevel::ReadWrite);
    if !s8.grants.contains(t_ro) {
        assert(s9.grants[s8.grants.len() as int] == t_ro);
    }
    assert(s9.grants.contains(t_ro));
    if !s9.grants.contains(t_rw_main) {
        assert(s10.grants[s9.grants.len() as int] == t_rw_main);
    }
    assert(s10.grants.contains(t_rw_main));
    if s10.grants != s9.grants {
        lemma_contains_push(s9.grants, t_ro, t_rw_main);
    }
    assert(s10.grants.contains(t_ro));
    if !s10.grants.contains(t_rw_auth) {
        assert(s11.grants[s10.grants.len() as int] == t_rw_auth);
    }
    assert(s11.grants.contains(t_rw_auth));
    if s11.grants != s10.grants {
        lemma_contains_push(s10.grants, t_ro, t_rw_auth);
        lemma_contains_push(s10.grants, t_rw_main, t_rw_auth);
    }
    assert(s11.grants.contains(t_ro));
    assert(s11.grants.contains(t_rw_main));

    // The second run finds everything in place and changes nothing.
    assert(ensure_database_spec(s11, cfg.auth_db) == s11);
    assert(ensure_database_spec(s11, cfg.main_db) == s11);
    assert(ensure_role_spec(s11, cfg.auth_rw_role, pw.auth_rw) == s11);
    assert(ensure_role_spec(s11, cfg.main_ro_role, pw.main_ro) == s11);
    assert(ensure_role_spec(s11, cfg.main_rw_role, pw.main_rw) == s11);

    assert(s11.failing == s0.failing);
    let a1_again = apply_schema_spec(s11, cfg.auth_db, auth_stmts);
    assert(first_failing(s11.failing, auth_stmts) == first_failing(s5.failing, auth_stmts));
    assert(a1_again is Ok);
    lemma_merged_identity(x_auth, auth_stmts);
    assert(schema_lookup(s11.schemas, cfg.auth_db) == Some(x_auth));
    lemma_set_schema_identity(s11.schemas, cfg.auth_db, x_auth);
    assert(a1_again->Ok_0 == s11);

    let b_again = bind_spec(s11, cfg.workspace, cfg.main_db);
    assert(b_again == Ok::<ServerSpec, (Seq<char>, Seq<char>, Seq<char>)>(s11));

    let a2_again = apply_schema_spec(s11, cfg.main_db, main_stmts);
    assert(first_failing(s11.failing, main_stmts) == first_failing(s7.failing, main_stmts));
    assert(a2_again is Ok);
    lemma_merged_identity(m_main, main_stmts);
    assert(schema_lookup(s11.schemas, cfg.main_db) == Some(m_main));
    lemma_set_schema_identity(s11.schemas, cfg.main_db, m_main);
    assert(a2_again->Ok_0 == s11);

    assert(grant_spec(s11, cfg.main_db, cfg.main_ro_role, GrantLevel::ReadOnly) == s11);
    assert(grant_spec(s11, cfg.main_db, cfg.main_rw_role, GrantLevel::ReadWrite) == s11);
    assert(grant_spec(s11, cfg.auth_db, cfg.auth_rw_role, GrantLevel::ReadWrite) == s11);

    assert(bootstrap_spec(cfg, pw, s11).state == s11);
}

/// Which operations a role can perform on a database under the issued
/// grants: read-only or read-write access allows SELECT; only read-write
/// allows INSERT, UPDATE, DELETE and sequence use.
pub open spec fn can_select(s: ServerSpec, db: Seq<char>, role: Seq<char>) -> bool {
    s.grants.contains((db, role, GrantLevel::ReadOnly)) || s.grants.contains(
        (db, role, GrantLevel::ReadWrite),
    )
}

pub open spec fn can_write(s: ServerSpec, db: Seq<char>, role: Seq<char>) -> bool {
    s.grants.contains((db, role, GrantLevel::ReadWrite))
}

/// Staged permission escalation: granting read-only lets the role read
/// but not write; granting read-write afterwards lets it read, perform
/// all DML and use sequences.
pub proof fn lemma_grant_escalation(s: ServerSpec, db: Seq<char>, role: Seq<char>)
    requires
        !s.grants.contains((db, role, GrantLevel::ReadWrite)),
    ensures
        ({
            let s1 = grant_spec(s, db, role, GrantLevel::ReadOnly);
            let s2 = grant_spec(s1, db, role, GrantLevel::ReadWrite);
            &&& can_select(s1, db, role)
            &&& !can_write(s1, db, role)
            &&& can_select(s2, db, role)
            &&& can_write(s2, db, role)
        }),
{
    let s1 = grant_spec(s, db, role, GrantLevel::ReadOnly);
    if !s.grants.contains((db, role, GrantLevel::ReadOnly)) {
        assert(s1.grants[s.grants.len() as int] == (db, role, GrantLevel::ReadOnly));
    }
    assert(s1.grants.contains((db, role, GrantLevel::ReadOnly)));
    if s1.grants.contains((db, role, GrantLevel::ReadWrite)) {
        let i = choose|i: int|
            0 <= i < s1.grants.len() && s1.grants[i] == (db, role, GrantLevel::ReadWrite);
        assert(i < s.grants.len() ==> s.grants[i] == (db, role, GrantLevel::ReadWrite));
        assert(false);
    }
    let s2 = grant_spec(s1, db, role, GrantLevel::ReadWrite);
    assert(s2.grants[s1.grants.len() as int] == (db, role, GrantLevel::ReadWrite));
    assert(s2.grants.contains((db, role, GrantLevel::ReadWrite)));
    let j = choose|i: int|
        0 <= i < s1.grants.len() && s1.grants[i] == (db, role, GrantLevel::ReadOnly);
    assert(s2.grants[j] == (db, role, GrantLevel::ReadOnly));
    assert(s2.grants.contains((db, role, GrantLevel::ReadOnly)));
}

} // verus!
