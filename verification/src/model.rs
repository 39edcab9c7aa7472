//! The server model and the full bootstrap run against it.
//!
//! The model captures exactly what the orchestrator reads and writes on
//! the database server: which databases and roles exist, which schema
//! statements each database has committed, the workspace bindings, and
//! the issued grants. A set of statements marked as failing stands in for
//! statements the server would reject. [`run_bootstrap`] performs the
//! whole orchestration against the model, in the same order and through
//! the same decision functions the live run uses, and its contract is the
//! specification of that order.

use vstd::prelude::*;

use crate::errors::ProvisionError;
use crate::ident::Ident;
use crate::provision::BindPlan;
use crate::provision::Config;
use crate::provision::EnsureAction;
use crate::provision::GrantLevel;
use crate::provision::plan_binding;
use crate::provision::plan_ensure_database;
use crate::provision::plan_ensure_role;
use crate::schema::auth_statements;
use crate::schema::auth_statements_spec;
use crate::schema::main_statements;
use crate::schema::main_statements_spec;
use crate::schema::views_of;
use crate::secrets::PasswordSet;
use crate::secrets::SecretDocument;
use crate::secrets::resolve_passwords;
use crate::secrets::resolved_passwords;

verus! {

/// The abstract state of the database server.
pub struct ServerSpec {
    /// The names of the existing databases.
    pub databases: Seq<Seq<char>>,
    /// The existing roles with the password each was created with; a
    /// re-run never updates a stored password.
    pub roles: Seq<(Seq<char>, Seq<char>)>,
    /// Per database, the schema statements committed to it.
    pub schemas: Seq<(Seq<char>, Seq<Seq<char>>)>,
    /// The workspace-to-database bindings.
    pub bindings: Seq<(Seq<char>, Seq<char>)>,
    /// The issued permission grants.
    pub grants: Seq<(Seq<char>, Seq<char>, GrantLevel)>,
    /// The statements the server rejects; everything else succeeds.
    pub failing: Seq<Seq<char>>,
}

pub open spec fn has_database(s: ServerSpec, name: Seq<char>) -> bool {
    s.databases.contains(name)
}

pub open spec fn has_role(s: ServerSpec, name: Seq<char>) -> bool {
    exists|i: int| 0 <= i < s.roles.len() && (#[trigger] s.roles[i]).0 == name
}

/// First-match lookup in an association list.
pub open spec fn assoc_lookup(pairs: Seq<(Seq<char>, Seq<char>)>, key: Seq<char>) -> Option<
    Seq<char>,
>
    decreases pairs.len(),
{
    if pairs.len() == 0 {
        None
    } else if pairs[0].0 == key {
        Some(pairs[0].1)
    } else {
        assoc_lookup(pairs.drop_first(), key)
    }
}

/// The database `workspace` is bound to, if any.
pub open spec fn binding_of(s: ServerSpec, workspace: Seq<char>) -> Option<Seq<char>> {
    assoc_lookup(s.bindings, workspace)
}

/// The committed schema list of `db`, if the server tracks one.
pub open spec fn schema_lookup(
    schemas: Seq<(Seq<char>, Seq<Seq<char>>)>,
    db: Seq<char>,
) -> Option<Seq<Seq<char>>>
    decreases schemas.len(),
{
    if schemas.len() == 0 {
        None
    } else if schemas[0].0 == db {
        Some(schemas[0].1)
    } else {
        schema_lookup(schemas.drop_first(), db)
    }
}

/// The committed schema statements of `db`, empty when none.
pub open spec fn schema_stmts(s: ServerSpec, db: Seq<char>) -> Seq<Seq<char>> {
    match schema_lookup(s.schemas, db) {
        Some(v) => v,
        None => Seq::empty(),
    }
}

/// Replaces the schema list stored for `db` (at its first entry), or
/// appends one.
pub open spec fn set_schema(
    schemas: Seq<(Seq<char>, Seq<Seq<char>>)>,
    db: Seq<char>,
    v: Seq<Seq<char>>,
) -> Seq<(Seq<char>, Seq<Seq<char>>)>
    decreases schemas.len(),
{
    if schemas.len() == 0 {
        seq![(db, v)]
    } else if schemas[0].0 == db {
        seq![(db, v)] + schemas.drop_first()
    } else {
        seq![schemas[0]] + set_schema(schemas.drop_first(), db, v)
    }
}

/// A database that exists is left alone; an absent one is created.
pub open spec fn ensure_database_spec(s: ServerSpec, name: Seq<char>) -> ServerSpec {
    if has_database(s, name) {
        s
    } else {
        ServerSpec { databases: s.databases.push(name), ..s }
    }
}

/// A role that exists is left alone — its password is not updated; an
/// absent one is created with `password`.
pub open spec fn ensure_role_spec(s: ServerSpec, name: Seq<char>, password: Seq<char>) -> ServerSpec {
    if has_role(s, name) {
        s
    } else {
        ServerSpec { roles: s.roles.push((name, password)), ..s }
    }
}

/// The index of the first statement the server rejects, or `-1`.
pub open spec fn first_failing(failing: Seq<Seq<char>>, stmts: Seq<Seq<char>>) -> int
    decreases stmts.len(),
{
    if stmts.len() == 0 {
        -1
    } else if failing.contains(stmts[0]) {
        0
    } else {
        let rest = first_failing(failing, stmts.drop_first());
        if rest < 0 {
            -1
        } else {
            1 + rest
        }
    }
}

/// The committed list after executing `stmts` in order: each statement
/// not yet committed is appended once, as the idempotent schema
/// statements behave.
pub open spec fn merged_schema(existing: Seq<Seq<char>>, stmts: Seq<Seq<char>>) -> Seq<Seq<char>>
    decreases stmts.len(),
{
    if stmts.len() == 0 {
        existing
    } else {
        let extended = if existing.contains(stmts[0]) {
            existing
        } else {
            existing.push(stmts[0])
        };
        merged_schema(extended, stmts.drop_first())
    }
}

/// One transactional schema-application pass: all statements commit, or
/// the first rejected statement aborts the pass and the state is
/// unchanged.
pub open spec fn apply_schema_spec(s: ServerSpec, db: Seq<char>, stmts: Seq<Seq<char>>) -> Result<
    ServerSpec,
    Seq<char>,
> {
    let k = first_failing(s.failing, stmts);
    if k >= 0 {
        Err(stmts[k])
    } else {
        Ok(
            ServerSpec {
                schemas: set_schema(s.schemas, db, merged_schema(schema_stmts(s, db), stmts)),
                ..s
            },
        )
    }
}

/// One workspace-binding step: insert when unbound, no-op when bound to
/// the same database, conflict `(workspace, existing, requested)` when
/// bound to a different one — the stored binding is never modified.
pub open spec fn bind_spec(s: ServerSpec, workspace: Seq<char>, database: Seq<char>) -> Result<
    ServerSpec,
    (Seq<char>, Seq<char>, Seq<char>),
> {
    match binding_of(s, workspace) {
        None => Ok(ServerSpec { bindings: s.bindings.push((workspace, database)), ..s }),
        Some(existing) => if existing == database {
            Ok(s)
        } else {
            Err((workspace, existing, database))
        },
    }
}

/// One grant pass. The orchestrator always reissues grants; the server's
/// privilege state is a set, so an already-held grant changes nothing.
pub open spec fn grant_spec(
    s: ServerSpec,
    db: Seq<char>,
    role: Seq<char>,
    level: GrantLevel,
) -> ServerSpec {
    if s.grants.contains((db, role, level)) {
        s
    } else {
        ServerSpec { grants: s.grants.push((db, role, level)), ..s }
    }
}

/// What a completed run reports: which targets it created and whether it
/// inserted the workspace binding, as opposed to finding them already in
/// place.
#[derive(Clone, Copy, Debug, PartialEq, Eq, Structural)]
pub struct Report {
    pub auth_db_created: bool,
    pub main_db_created: bool,
    pub auth_rw_role_created: bool,
    pub main_ro_role_created: bool,
    pub main_rw_role_created: bool,
    pub workspace_bound: bool,
}

/// The abstract configuration of a run.
pub struct ConfigSpec {
    pub auth_db: Seq<char>,
    pub main_db: Seq<char>,
    pub workspace: Seq<char>,
    pub superuser_role: Seq<char>,
    pub auth_rw_role: Seq<char>,
    pub main_ro_role: Seq<char>,
    pub main_rw_role: Seq<char>,
}

impl View for Config {
    type V = ConfigSpec;

    open spec fn view(&self) -> ConfigSpec {
        ConfigSpec {
            auth_db: self.auth_db@,
            main_db: self.main_db@,
            workspace: self.workspace@,
            superuser_role: self.superuser_role@,
            auth_rw_role: self.auth_rw_role@,
            main_ro_role: self.main_ro_role@,
            main_rw_role: self.main_rw_role@,
        }
    }
}

/// The abstract password set of a run.
pub struct PasswordsSpec {
    pub superuser: Seq<char>,
    pub auth_rw: Seq<char>,
    pub main_ro: Seq<char>,
    pub main_rw: Seq<char>,
}

impl View for PasswordSet {
    type V = PasswordsSpec;

    open spec fn view(&self) -> PasswordsSpec {
        PasswordsSpec {
            superuser: self.superuser@,
            auth_rw: self.auth_rw@,
            main_ro: self.main_ro@,
            main_rw: self.main_rw@,
        }
    }
}

/// The final state of a run together with how it ended.
pub struct SpecRun {
    pub state: ServerSpec,
    pub outcome: SpecOutcome,
}

pub enum SpecOutcome {
    /// The run completed; `report` says what it created.
    Done { report: Report },
    /// A schema statement was rejected; its pass was rolled back.
    SchemaFailed { statement: Seq<char> },
    /// The workspace was already bound to a different database.
    Conflict { workspace: Seq<char>, existing: Seq<char>, requested: Seq<char> },
}

/// The whole orchestration, in its fixed order: ensure the two databases,
/// ensure the three roles, apply the auth schema transactionally, bind
/// the workspace, apply the main schema transactionally, then grant
/// read-only on main, read-write on main, and read-write on auth. Any
/// failure aborts the run at that point; earlier steps are not undone.
pub open spec fn bootstrap_spec(cfg: ConfigSpec, pw: PasswordsSpec, s0: ServerSpec) -> SpecRun {
    let s1 = ensure_database_spec(s0, cfg.auth_db);
    let s2 = ensure_database_spec(s1, cfg.main_db);
    let s3 = ensure_role_spec(s2, cfg.auth_rw_role, pw.auth_rw);
    let s4 = ensure_role_spec(s3, cfg.main_ro_role, pw.main_ro);
    let s5 = ensure_role_spec(s4, cfg.main_rw_role, pw.main_rw);
    match apply_schema_spec(s5, cfg.auth_db, auth_statements_spec()) {
        Err(statement) => SpecRun { state: s5, outcome: SpecOutcome::SchemaFailed { statement } },
        Ok(s6) => match bind_spec(s6, cfg.workspace, cfg.main_db) {
            Err(c) => SpecRun {
                state: s6,
                outcome: SpecOutcome::Conflict { workspace: c.0, existing: c.1, requested: c.2 },
            },
            Ok(s7) => match apply_schema_spec(s7, cfg.main_db, main_statements_spec()) {
                Err(statement) => SpecRun {
                    state: s7,
                    outcome: SpecOutcome::SchemaFailed { statement },
                },
                Ok(s8) => {
                    let s9 = grant_spec(s8, cfg.main_db, cfg.main_ro_role, GrantLevel::ReadOnly);
                    let s10 = grant_spec(
                        s9,
                        cfg.main_db,
                        cfg.main_rw_role,
                        GrantLevel::ReadWrite,
                    );
                    let s11 = grant_spec(
                        s10,
                        cfg.auth_db,
                        cfg.auth_rw_role,
                        GrantLevel::ReadWrite,
                    );
                    SpecRun {
                        state: s11,
                        outcome: SpecOutcome::Done {
                            report: Report {
                                auth_db_created: !has_database(s0, cfg.auth_db),
                                main_db_created: !has_database(s1, cfg.main_db),
                                auth_rw_role_created: !has_role(s2, cfg.auth_rw_role),
                                main_ro_role_created: !has_role(s3, cfg.main_ro_role),
                                main_rw_role_created: !has_role(s4, cfg.main_rw_role),
                                workspace_bound: binding_of(s6, cfg.workspace) is None,
                            },
                        },
                    }
                },
            },
        },
    }
}

/// How an executable run result corresponds to a [`SpecRun`].
pub open spec fn run_matches(
    pre: ServerSpec,
    post: ServerSpec,
    r: Result<Report, ProvisionError>,
    cfg: ConfigSpec,
    pw: PasswordsSpec,
) -> bool {
    let run = bootstrap_spec(cfg, pw, pre);
    &&& post == run.state
    &&& match run.outcome {
        SpecOutcome::Done { report } => r == Ok::<Report, ProvisionError>(report),
        SpecOutcome::SchemaFailed { statement } => r matches Err(e) && (e matches
        ProvisionError::SchemaApplication { statement: t, .. } && t@ == statement),
        SpecOutcome::Conflict { workspace, existing, requested } => r matches Err(e) && (e matches
        ProvisionError::WorkspaceConflict { workspace: w, existing: ex, requested: rq } && w@
            == workspace && ex@ == existing && rq@ == requested),
    }
}

/// The executable server model: a test double with exactly the abstract
/// state of [`ServerSpec`].
#[derive(Debug, Clone, PartialEq)]
pub struct ModelServer {
    pub databases: Vec<String>,
    pub roles: Vec<(String, String)>,
    pub schemas: Vec<(String, Vec<String>)>,
    pub bindings: Vec<(String, String)>,
    pub grants: Vec<(String, String, GrantLevel)>,
    pub failing: Vec<String>,
}

impl View for ModelServer {
    type V = ServerSpec;

    open spec fn view(&self) -> ServerSpec {
        ServerSpec {
            databases: views_of(self.databases@),
            roles: Seq::new(self.roles@.len(), |i: int| (self.roles@[i].0@, self.roles@[i].1@)),
            schemas: Seq::new(
                self.schemas@.len(),
                |i: int| (self.schemas@[i].0@, views_of(self.schemas@[i].1@)),
            ),
            bindings: Seq::new(
                self.bindings@.len(),
                |i: int| (self.bindings@[i].0@, self.bindings@[i].1@),
            ),
            grants: Seq::new(
                self.grants@.len(),
                |i: int| (self.grants@[i].0@, self.grants@[i].1@, self.grants@[i].2),
            ),
            failing: views_of(self.failing@),
        }
    }
}

impl ModelServer {
    /// An empty server with no injected failures.
    pub fn new() -> (r: ModelServer)
        ensures
            r@ == (ServerSpec {
                databases: Seq::empty(),
                roles: Seq::empty(),
                schemas: Seq::empty(),
                bindings: Seq::empty(),
                grants: Seq::empty(),
                failing: Seq::empty(),
            }),
    {
        let r = ModelServer {
            databases: Vec::new(),
            roles: Vec::new(),
            schemas: Vec::new(),
            bindings: Vec::new(),
            grants: Vec::new(),
            failing: Vec::new(),
        };
        proof {
            assert(r@.databases =~= Seq::<Seq<char>>::empty());
            assert(r@.roles =~= Seq::<(Seq<char>, Seq<char>)>::empty());
            assert(r@.schemas =~= Seq::<(Seq<char>, Seq<Seq<char>>)>::empty());
            assert(r@.bindings =~= Seq::<(Seq<char>, Seq<char>)>::empty());
            assert(r@.grants =~= Seq::<(Seq<char>, Seq<char>, GrantLevel)>::empty());
            assert(r@.failing =~= Seq::<Seq<char>>::empty());
        }
        r
    }

    /// Marks one statement as rejected by the server, as a test double
    /// for a malformed or failing statement.
    pub fn inject_failure(&mut self, statement: String)
        ensures
            final(self)@ == (ServerSpec { failing: old(self)@.failing.push(statement@), ..old(self)@ }),
    {
        self.failing.push(statement);
        proof {
            assert(self@.databases =~= old(self)@.databases);
            assert(self@.roles =~= old(self)@.roles);
            assert(self@.schemas =~= old(self)@.schemas);
            assert(self@.bindings =~= old(self)@.bindings);
            assert(self@.grants =~= old(self)@.grants);
            assert(self@.failing =~= old(self)@.failing.push(statement@));
        }
    }

    /// The existence check behind `CREATE DATABASE`.
    pub fn query_db_exists(&self, name: &str) -> (r: bool)
        ensures
            r == has_database(self@, name@),
    {
        let wanted = name.to_string();
        let n = self.databases.len();
        let mut i: usize = 0;
        while i < n
            invariant
                0 <= i <= n,
                n == self.databases@.len(),
                wanted@ == name@,
                forall|j: int| 0 <= j < i ==> (#[trigger] self.databases@[j])@ != name@,
            decreases n - i,
        {
            if self.databases[i] == wanted {
                proof {
                    assert(views_of(self.databases@)[i as int] == name@);
                }
                return true;
            }
            i = i + 1;
        }
        proof {
            assert forall|j: int| 0 <= j < views_of(self.databases@).len() implies #[trigger] views_of(
                self.databases@,
            )[j] != name@ by {
                assert(views_of(self.databases@)[j] == self.databases@[j]@);
            }
        }
        false
    }

    /// Executes `CREATE DATABASE` for an absent database.
    pub fn create_database(&mut self, name: &Ident)
        requires
            !has_database(old(self)@, name@),
        ensures
            final(self)@ == (ServerSpec {
                databases: old(self)@.databases.push(name@),
                ..old(self)@
            }),
    {
        self.databases.push(name.to_text());
        proof {
            assert(self@.databases =~= old(self)@.databases.push(name@));
            assert(self@.roles =~= old(self)@.roles);
            assert(self@.schemas =~= old(self)@.schemas);
            assert(self@.bindings =~= old(self)@.bindings);
            assert(self@.grants =~= old(self)@.grants);
            assert(self@.failing =~= old(self)@.failing);
        }
    }

    /// The existence check behind `CREATE ROLE`.
    pub fn query_role_exists(&self, name: &str) -> (r: bool)
        ensures
            r == has_role(self@, name@),
    {
        let wanted = name.to_string();
        let n = self.roles.len();
        let mut i: usize = 0;
        while i < n
            invariant
                0 <= i <= n,
                n == self.roles@.len(),
                wanted@ == name@,
                forall|j: int| 0 <= j < i ==> (#[trigger] self.roles@[j]).0@ != name@,
            decreases n - i,
        {
            if self.roles[i].0 == wanted {
                proof {
                    assert((self@.roles[i as int]).0 == name@);
                }
                return true;
            }
            i = i + 1;
        }
        proof {
            assert forall|j: int| 0 <= j < self@.roles.len() implies (#[trigger] self@.roles[j]).0
                != name@ by {
                assert(self@.roles[j].0 == self.roles@[j].0@);
            }
        }
        false
    }

    /// Executes `CREATE ROLE` for an absent role, storing the password it
    /// was created with.
    pub fn create_role(&mut self, name: &Ident, password: &str)
        requires
            !has_role(old(self)@, name@),
        ensures
            final(self)@ == (ServerSpec {
                roles: old(self)@.roles.push((name@, password@)),
                ..old(self)@
            }),
    {
        self.roles.push((name.to_text(), password.to_string()));
        proof {
            assert(self@.roles =~= old(self)@.roles.push((name@, password@)));
            assert(self@.databases =~= old(self)@.databases);
            assert(self@.schemas =~= old(self)@.schemas);
            assert(self@.bindings =~= old(self)@.bindings);
            assert(self@.grants =~= old(self)@.grants);
            assert(self@.failing =~= old(self)@.failing);
        }
    }

    /// The binding lookup behind the workspace-binding step.
    pub fn query_binding(&self, workspace: &str) -> (r: Option<String>)
        ensures
            r is Some <==> binding_of(self@, workspace@) is Some,
            r matches Some(d) ==> binding_of(self@, workspace@) == Some(d@),
    {
        let wanted = workspace.to_string();
        let n = self.bindings.len();
        let mut i: usize = 0;
        proof {
            assert(self@.bindings.skip(0) =~= self@.bindings);
        }
        while i < n
            invariant
                0 <= i <= n,
                n == self.bindings@.len(),
                wanted@ == workspace@,
                assoc_lookup(self@.bindings.skip(i as int), workspace@) == binding_of(
                    self@,
                    workspace@,
                ),
            decreases n - i,
        {
            proof {
                assert(self@.bindings.skip(i as int)[0] == self@.bindings[i as int]);
                assert(self@.bindings.skip(i as int).drop_first() =~= self@.bindings.skip(
                    i as int + 1,
                ));
            }
            if self.bindings[i].0 == wanted {
                return Some(self.bindings[i].1.clone());
            }
            i = i + 1;
        }
        proof {
            assert(self@.bindings.skip(n as int) =~= Seq::<(Seq<char>, Seq<char>)>::empty());
        }
        None
    }

    /// Inserts a new workspace binding.
    pub fn insert_binding(&mut self, workspace: &Ident, database: &Ident)
        requires
            binding_of(old(self)@, workspace@) is None,
        ensures
            final(self)@ == (ServerSpec {
                bindings: old(self)@.bindings.push((workspace@, database@)),
                ..old(self)@
            }),
    {
        self.bindings.push((workspace.to_text(), database.to_text()));
        proof {
            assert(self@.bindings =~= old(self)@.bindings.push((workspace@, database@)));
            assert(self@.databases =~= old(self)@.databases);
            assert(self@.roles =~= old(self)@.roles);
            assert(self@.schemas =~= old(self)@.schemas);
            assert(self@.grants =~= old(self)@.grants);
            assert(self@.failing =~= old(self)@.failing);
        }
    }

    /// Whether the server holds a grant, for inspection.
    pub fn has_grant(&self, db: &str, role: &str, level: GrantLevel) -> (r: bool)
        ensures
            r == self@.grants.contains((db@, role@, level)),
    {
        let wdb = db.to_string();
        let wrole = role.to_string();
        let n = self.grants.len();
        let mut i: usize = 0;
        while i < n
            invariant
                0 <= i <= n,
                n == self.grants@.len(),
                wdb@ == db@,
                wrole@ == role@,
                forall|j: int| 0 <= j < i ==> (#[trigger] self@.grants[j]) != (db@, role@, level),
            decreases n - i,
        {
            if self.grants[i].0 == wdb && self.grants[i].1 == wrole && self.grants[i].2 == level {
                proof {
                    assert(self@.grants[i as int] == (db@, role@, level));
                }
                return true;
            }
            proof {
                assert(self@.grants[i as int] == (
                    self.grants@[i as int].0@,
                    self.grants@[i as int].1@,
                    self.grants@[i as int].2,
                ));
            }
            i = i + 1;
        }
        false
    }

    /// Issues one grant pass; an already-held grant leaves the privilege
    /// state unchanged.
    pub fn grant(&mut self, db: &Ident, role: &Ident, level: GrantLevel)
        ensures
            final(self)@ == grant_spec(old(self)@, db@, role@, level),
    {
        if !self.has_grant(db.as_str(), role.as_str(), level) {
            self.grants.push((db.to_text(), role.to_text(), level));
            proof {
                assert(self@.grants =~= old(self)@.grants.push((db@, role@, level)));
                assert(self@.databases =~= old(self)@.databases);
                assert(self@.roles =~= old(self)@.roles);
                assert(self@.schemas =~= old(self)@.schemas);
                assert(self@.bindings =~= old(self)@.bindings);
                assert(self@.failing =~= old(self)@.failing);
            }
        }
    }

    /// The committed schema statements of `db`, for inspection.
    pub fn schema_of(&self, db: &str) -> (r: Vec<String>)
        ensures
            views_of(r@) == schema_stmts(self@, db@),
    {
        let wanted = db.to_string();
        let n = self.schemas.len();
        let mut i: usize = 0;
        proof {
            assert(self@.schemas.skip(0) =~= self@.schemas);
        }
        while i < n
            invariant
                0 <= i <= n,
                n == self.schemas@.len(),
                wanted@ == db@,
                schema_lookup(self@.schemas.skip(i as int), db@) == schema_lookup(
                    self@.schemas,
                    db@,
                ),
            decreases n - i,
        {
            proof {
                assert(self@.schemas.skip(i as int)[0] == self@.schemas[i as int]);
                assert(self@.schemas.skip(i as int).drop_first() =~= self@.schemas.skip(
                    i as int + 1,
                ));
            }
            if self.schemas[i].0 == wanted {
                return self.schemas[i].1.clone();
            }
            i = i + 1;
        }
        let empty: Vec<String> = Vec::new();
        proof {
            assert(self@.schemas.skip(n as int) =~= Seq::<(Seq<char>, Seq<Seq<char>>)>::empty());
            assert(views_of(empty@) =~= Seq::<Seq<char>>::empty());
        }
        empty
    }

    /// Replaces (or creates) the committed schema list of `db`; the
    /// commit point of a successful transaction.
    fn commit_schema(&mut self, db: &Ident, pending: Vec<String>)
        ensures
            final(self)@ == (ServerSpec {
                schemas: set_schema(old(self)@.schemas, db@, views_of(pending@)),
                ..old(self)@
            }),
    {
        let wanted = db.to_text();
        let n = self.schemas.len();
        let mut i: usize = 0;
        while i < n
            invariant
                0 <= i <= n,
                n == self.schemas@.len(),
                wanted@ == db@,
                self@ == old(self)@,
                forall|j: int| 0 <= j < i ==> (#[trigger] self@.schemas[j]).0 != db@,
            decreases n - i,
        {
            proof {
                assert(self@.schemas[i as int].0 == self.schemas@[i as int].0@);
            }
            if self.schemas[i].0 == wanted {
                let _replaced = self.schemas.remove(i);
                self.schemas.insert(i, (db.to_text(), pending));
                proof {
                    lemma_set_schema_at(old(self)@.schemas, db@, views_of(pending@), i as int);
                    assert(self@.schemas =~= old(self)@.schemas.update(
                        i as int,
                        (db@, views_of(pending@)),
                    ));
                    assert(self@.databases =~= old(self)@.databases);
                    assert(self@.roles =~= old(self)@.roles);
                    assert(self@.bindings =~= old(self)@.bindings);
                    assert(self@.grants =~= old(self)@.grants);
                    assert(self@.failing =~= old(self)@.failing);
                }
                return;
            }
            i = i + 1;
        }
        self.schemas.push((db.to_text(), pending));
        proof {
            lemma_set_schema_absent(old(self)@.schemas, db@, views_of(pending@));
            assert(self@.schemas =~= old(self)@.schemas.push((db@, views_of(pending@))));
            assert(self@.databases =~= old(self)@.databases);
            assert(self@.roles =~= old(self)@.roles);
            assert(self@.bindings =~= old(self)@.bindings);
            assert(self@.grants =~= old(self)@.grants);
            assert(self@.failing =~= old(self)@.failing);
        }
    }

    /// One transactional schema-application pass: executes `stmts` in
    /// order inside a transaction; the first rejected statement rolls the
    /// whole pass back, embeds its text in the error, and skips every
    /// later statement; otherwise the pass commits.
    pub fn apply_statements(&mut self, db: &Ident, stmts: Vec<String>) -> (r: Result<
        (),
        ProvisionError,
    >)
        ensures
            apply_schema_spec(old(self)@, db@, views_of(stmts@)) matches Ok(s) ==> (r is Ok
                && final(self)@ == s),
            apply_schema_spec(old(self)@, db@, views_of(stmts@)) matches Err(t) ==> (final(self)@
                == old(self)@ && (r matches Err(e) && (e matches
            ProvisionError::SchemaApplication { statement, .. } && statement@ == t))),
    {
        let ghost pre = self@;
        let mut pending = self.schema_of(db.as_str());
        let n = stmts.len();
        let mut i: usize = 0;
        proof {
            assert(views_of(stmts@).take(0) =~= Seq::<Seq<char>>::empty());
        }
        while i < n
            invariant
                0 <= i <= n,
                n == stmts@.len(),
                self@ == pre,
                views_of(pending@) == merged_schema(
                    schema_stmts(pre, db@),
                    views_of(stmts@).take(i as int),
                ),
                forall|j: int| 0 <= j < i ==> !pre.failing.contains(#[trigger] views_of(stmts@)[j]),
            decreases n - i,
        {
            let ghost stmt_views = views_of(stmts@);
            if self.stmt_fails(&stmts[i]) {
                proof {
                    assert(stmt_views[i as int] == stmts@[i as int]@);
                    lemma_first_failing_at(pre.failing, stmt_views, i as int);
                }
                return Err(
                    ProvisionError::SchemaApplication {
                        statement: stmts[i].clone(),
                        detail: "statement rejected".to_string(),
                    },
                );
            }
            let ghost merged_before = views_of(pending@);
            if !vec_contains_string(&pending, &stmts[i]) {
                pending.push(stmts[i].clone());
                proof {
                    assert(views_of(pending@) =~= merged_before.push(stmts@[i as int]@));
                }
            }
            proof {
                assert(stmt_views.take(i + 1) =~= stmt_views.take(i as int).push(
                    stmt_views[i as int],
                ));
                lemma_merged_push(schema_stmts(pre, db@), stmt_views.take(i as int), stmt_views[i as int]);
            }
            i = i + 1;
        }
        proof {
            assert(views_of(stmts@).take(n as int) =~= views_of(stmts@));
            lemma_first_failing_none(pre.failing, views_of(stmts@));
        }
        self.commit_schema(db, pending);
        Ok(())
    }

    /// Whether the server rejects this statement.
    fn stmt_fails(&self, sql: &String) -> (r: bool)
        ensures
            r == self@.failing.contains(sql@),
    {
        let n = self.failing.len();
        let mut i: usize = 0;
        while i < n
            invariant
                0 <= i <= n,
                n == self.failing@.len(),
                forall|j: int| 0 <= j < i ==> (#[trigger] self.failing@[j])@ != sql@,
            decreases n - i,
        {
            if self.failing[i] == *sql {
                proof {
                    assert(views_of(self.failing@)[i as int] == sql@);
                }
                return true;
            }
            i = i + 1;
        }
        proof {
            assert forall|j: int| 0 <= j < self@.failing.len() implies #[trigger] self@.failing[j]
                != sql@ by {
                assert(self@.failing[j] == self.failing@[j]@);
            }
        }
        false
    }
}

/// The whole orchestration against the model server, in the fixed order
/// of [`bootstrap_spec`], through the same decision functions the live
/// run uses. Any step's failure aborts the run immediately; earlier steps
/// are not undone.
pub fn run_bootstrap(cfg: &Config, pw: &PasswordSet, server: &mut ModelServer) -> (r: Result<
    Report,
    ProvisionError,
>)
    ensures
        run_matches(old(server)@, final(server)@, r, cfg@, pw@),
{
    let ghost s0 = server@;
    let auth_db_exists = server.query_db_exists(cfg.auth_db.as_str());
    match plan_ensure_database(auth_db_exists, &cfg.auth_db) {
        EnsureAction::AlreadyExists => (),
        EnsureAction::Create { .. } => server.create_database(&cfg.auth_db),
    }
    let ghost s1 = ensure_database_spec(s0, cfg@.auth_db);
    proof {
        assert(server@ == s1);
    }
    let main_db_exists = server.query_db_exists(cfg.main_db.as_str());
    match plan_ensure_database(main_db_exists, &cfg.main_db) {
        EnsureAction::AlreadyExists => (),
        EnsureAction::Create { .. } => server.create_database(&cfg.main_db),
    }
    let ghost s2 = ensure_database_spec(s1, cfg@.main_db);
    proof {
        assert(server@ == s2);
    }
    let auth_rw_exists = server.query_role_exists(cfg.auth_rw_role.as_str());
    match plan_ensure_role(auth_rw_exists, &cfg.auth_rw_role, pw.auth_rw.as_str()) {
        EnsureAction::AlreadyExists => (),
        EnsureAction::Create { .. } => server.create_role(&cfg.auth_rw_role, pw.auth_rw.as_str()),
    }
    let ghost s3 = ensure_role_spec(s2, cfg@.auth_rw_role, pw@.auth_rw);
    proof {
        assert(server@ == s3);
    }
    let main_ro_exists = server.query_role_exists(cfg.main_ro_role.as_str());
    match plan_ensure_role(main_ro_exists, &cfg.main_ro_role, pw.main_ro.as_str()) {
        EnsureAction::AlreadyExists => (),
        EnsureAction::Create { .. } => server.create_role(&cfg.main_ro_role, pw.main_ro.as_str()),
    }
    let ghost s4 = ensure_role_spec(s3, cfg@.main_ro_role, pw@.main_ro);
    proof {
        assert(server@ == s4);
    }
    let main_rw_exists = server.query_role_exists(cfg.main_rw_role.as_str());
    match plan_ensure_role(main_rw_exists, &cfg.main_rw_role, pw.main_rw.as_str()) {
        EnsureAction::AlreadyExists => (),
        EnsureAction::Create { .. } => server.create_role(&cfg.main_rw_role, pw.main_rw.as_str()),
    }
    let ghost s5 = ensure_role_spec(s4, cfg@.main_rw_role, pw@.main_rw);
    proof {
        assert(server@ == s5);
    }
    match server.apply_statements(&cfg.auth_db, auth_statements()) {
        Ok(()) => (),
        Err(e) => {
            return Err(e);
        },
    }
    let ghost s6 = apply_schema_spec(s5, cfg@.auth_db, auth_statements_spec())->Ok_0;
    proof {
        assert(server@ == s6);
    }
    let existing = server.query_binding(cfg.workspace.as_str());
    let bound: bool;
    match plan_binding(&existing, &cfg.workspace, &cfg.main_db) {
        Ok(BindPlan::Insert) => {
            server.insert_binding(&cfg.workspace, &cfg.main_db);
            bound = true;
        },
        Ok(BindPlan::AlreadyBoundSame) => {
            bound = false;
        },
        Err(e) => {
            return Err(e);
        },
    }
    let ghost s7 = bind_spec(s6, cfg@.workspace, cfg@.main_db)->Ok_0;
    proof {
        assert(server@ == s7);
    }
    match server.apply_statements(&cfg.main_db, main_statements()) {
        Ok(()) => (),
        Err(e) => {
            return Err(e);
        },
    }
    let ghost s8 = apply_schema_spec(s7, cfg@.main_db, main_statements_spec())->Ok_0;
    proof {
        assert(server@ == s8);
    }
    server.grant(&cfg.main_db, &cfg.main_ro_role, GrantLevel::ReadOnly);
    server.grant(&cfg.main_db, &cfg.main_rw_role, GrantLevel::ReadWrite);
    server.grant(&cfg.auth_db, &cfg.auth_rw_role, GrantLevel::ReadWrite);
    Ok(
        Report {
            auth_db_created: !auth_db_exists,
            main_db_created: !main_db_exists,
            auth_rw_role_created: !auth_rw_exists,
            main_ro_role_created: !main_ro_exists,
            main_rw_role_created: !main_rw_exists,
            workspace_bound: bound,
        },
    )
}

/// A full run including secret resolution, which precedes every
/// connection-dependent side effect: when resolution fails, the server is
/// untouched.
pub fn provision(
    cfg: &Config,
    enabled: bool,
    local: PasswordSet,
    superuser_doc: &Option<SecretDocument>,
    roles_doc: &Option<SecretDocument>,
    server: &mut ModelServer,
) -> (r: Result<Report, ProvisionError>)
    requires
        enabled ==> (superuser_doc is Some && roles_doc is Some),
    ensures
        !enabled ==> run_matches(old(server)@, final(server)@, r, cfg@, local@),
        enabled ==> match resolved_passwords(
            superuser_doc->0.entries@,
            roles_doc->0.entries@,
            cfg@.superuser_role,
            cfg@.auth_rw_role,
            cfg@.main_ro_role,
            cfg@.main_rw_role,
        ) {
            Ok(pw) => run_matches(
                old(server)@,
                final(server)@,
                r,
                cfg@,
                PasswordsSpec { superuser: pw.0, auth_rw: pw.1, main_ro: pw.2, main_rw: pw.3 },
            ),
            Err(k) => final(server)@ == old(server)@ && (r matches Err(e) && (e matches
            ProvisionError::SecretFieldMissing { key } && key@ == k)),
        },
{
    let resolved = match resolve_passwords(
        enabled,
        local,
        superuser_doc,
        roles_doc,
        &cfg.superuser_role,
        &cfg.auth_rw_role,
        &cfg.main_ro_role,
        &cfg.main_rw_role,
    ) {
        Ok(p) => p,
        Err(e) => {
            return Err(e);
        },
    };
    run_bootstrap(cfg, &resolved, server)
}

/// Whether some element of `v` has the text of `x`.
fn vec_contains_string(v: &Vec<String>, x: &String) -> (r: bool)
    ensures
        r == views_of(v@).contains(x@),
{
    let n = v.len();
    let mut i: usize = 0;
    while i < n
        invariant
            0 <= i <= n,
            n == v@.len(),
            forall|j: int| 0 <= j < i ==> (#[trigger] v@[j])@ != x@,
        decreases n - i,
    {
        if v[i] == *x {
            proof {
                assert(views_of(v@)[i as int] == x@);
            }
            return true;
        }
        i = i + 1;
    }
    proof {
        assert forall|j: int| 0 <= j < views_of(v@).len() implies #[trigger] views_of(v@)[j] != x@ by {
            assert(views_of(v@)[j] == v@[j]@);
        }
    }
    false
}

/// No statement of `stmts` is rejected, so no failing index exists.
pub proof fn lemma_first_failing_none(failing: Seq<Seq<char>>, stmts: Seq<Seq<char>>)
    requires
        forall|j: int| 0 <= j < stmts.len() ==> !failing.contains(#[trigger] stmts[j]),
    ensures
        first_failing(failing, stmts) == -1,
    decreases stmts.len(),
{
    if stmts.len() > 0 {
        assert forall|j: int| 0 <= j < stmts.drop_first().len() implies !failing.contains(
            #[trigger] stmts.drop_first()[j],
        ) by {
            assert(stmts.drop_first()[j] == stmts[j + 1]);
        }
        lemma_first_failing_none(failing, stmts.drop_first());
    }
}

/// The first rejected statement is at `i` when nothing before `i` is
/// rejected and `stmts[i]` is.
proof fn lemma_first_failing_at(failing: Seq<Seq<char>>, stmts: Seq<Seq<char>>, i: int)
    requires
        0 <= i < stmts.len(),
        forall|j: int| 0 <= j < i ==> !failing.contains(#[trigger] stmts[j]),
        failing.contains(stmts[i]),
    ensures
        first_failing(failing, stmts) == i,
    decreases i,
{
    if i == 0 {
    } else {
        assert(!failing.contains(stmts[0]));
        assert forall|j: int| 0 <= j < i - 1 implies !failing.contains(
            #[trigger] stmts.drop_first()[j],
        ) by {
            assert(stmts.drop_first()[j] == stmts[j + 1]);
        }
        assert(stmts.drop_first()[i - 1] == stmts[i]);
        lemma_first_failing_at(failing, stmts.drop_first(), i - 1);
    }
}

/// Merging one more statement extends the merged list exactly when the
/// statement is not already in it.
proof fn lemma_merged_push(existing: Seq<Seq<char>>, stmts: Seq<Seq<char>>, x: Seq<char>)
    ensures
        merged_schema(existing, stmts.push(x)) == (if merged_schema(existing, stmts).contains(x) {
            merged_schema(existing, stmts)
        } else {
            merged_schema(existing, stmts).push(x)
        }),
    decreases stmts.len(),
{
    if stmts.len() == 0 {
        assert(stmts.push(x)[0] == x);
        assert(stmts.push(x).drop_first() =~= Seq::<Seq<char>>::empty());
        let extended = if existing.contains(x) {
            existing
        } else {
            existing.push(x)
        };
        assert(merged_schema(extended, stmts.push(x).drop_first()) == extended);
        assert(merged_schema(existing, stmts.push(x)) == extended);
        assert(merged_schema(existing, stmts) == existing);
    } else {
        assert(stmts.push(x)[0] == stmts[0]);
        let extended = if existing.contains(stmts[0]) {
            existing
        } else {
            existing.push(stmts[0])
        };
        assert(merged_schema(existing, stmts.push(x)) == merged_schema(
            extended,
            stmts.push(x).drop_first(),
        ));
        assert(merged_schema(existing, stmts) == merged_schema(extended, stmts.drop_first()));
        assert(stmts.push(x).drop_first() =~= stmts.drop_first().push(x));
        lemma_merged_push(extended, stmts.drop_first(), x);
    }
}

/// Replacing the schema list of a database whose first entry sits at `i`
/// updates exactly that entry.
proof fn lemma_set_schema_at(
    schemas: Seq<(Seq<char>, Seq<Seq<char>>)>,
    db: Seq<char>,
    v: Seq<Seq<char>>,
    i: int,
)
    requires
        0 <= i < schemas.len(),
        schemas[i].0 == db,
        forall|j: int| 0 <= j < i ==> (#[trigger] schemas[j]).0 != db,
    ensures
        set_schema(schemas, db, v) =~= schemas.update(i, (db, v)),
    decreases i,
{
    if i == 0 {
    } else {
        assert(schemas[0].0 != db);
        assert forall|j: int| 0 <= j < i - 1 implies (#[trigger] schemas.drop_first()[j]).0
            != db by {
            assert(schemas.drop_first()[j] == schemas[j + 1]);
        }
        assert(schemas.drop_first()[i - 1] == schemas[i]);
        lemma_set_schema_at(schemas.drop_first(), db, v, i - 1);
        assert(schemas.drop_first().update(i - 1, (db, v)) =~= schemas.update(
            i,
            (db, v),
        ).drop_first());
    }
}

/// Replacing the schema list of an untracked database appends an entry.
proof fn lemma_set_schema_absent(
    schemas: Seq<(Seq<char>, Seq<Seq<char>>)>,
    db: Seq<char>,
    v: Seq<Seq<char>>,
)
    requires
        forall|j: int| 0 <= j < schemas.len() ==> (#[trigger] schemas[j]).0 != db,
    ensures
        set_schema(schemas, db, v) =~= schemas.push((db, v)),
    decreases schemas.len(),
{
    if schemas.len() > 0 {
        assert forall|j: int| 0 <= j < schemas.drop_first().len() implies (#[trigger] schemas.drop_first()[j]).0
            != db by {
            assert(schemas.drop_first()[j] == schemas[j + 1]);
        }
        lemma_set_schema_absent(schemas.drop_first(), db, v);
    }
}

} // verus!
