//! Decisions and statement text for every provisioning step.
//!
//! Each step of a bootstrap run is decided here from plain query results:
//! whether a database or role must be created and with which statement,
//! how a workspace binding is resolved, which grant statements a
//! permission pass issues, and how a transactional schema pass advances
//! and fails. The caller only performs the decided statement against the
//! server and hands the outcome back.

use vstd::prelude::*;
use vstd::string::StringExecFns;

use crate::errors::ProvisionError;
use crate::ident::Ident;
use crate::schema::views_of;

verus! {

/// The full configuration of one bootstrap run, validated at the boundary
/// and passed by reference into every step.
pub struct Config {
    pub auth_db: Ident,
    pub main_db: Ident,
    pub workspace: Ident,
    pub superuser_role: Ident,
    pub auth_rw_role: Ident,
    pub main_ro_role: Ident,
    pub main_rw_role: Ident,
}

/// The catalog query deciding whether a database exists; its one
/// parameter is the database name.
pub fn db_exists_query() -> (r: &'static str)
    ensures
        r@ == "SELECT EXISTS(SELECT 1 FROM pg_database WHERE datname = $1)"@,
{
    "SELECT EXISTS(SELECT 1 FROM pg_database WHERE datname = $1)"
}

/// The catalog query deciding whether a role exists; its one parameter is
/// the role name.
pub fn role_exists_query() -> (r: &'static str)
    ensures
        r@ == "SELECT EXISTS(SELECT 1 FROM pg_roles WHERE rolname = $1)"@,
{
    "SELECT EXISTS(SELECT 1 FROM pg_roles WHERE rolname = $1)"
}

/// The query that has the server escape a password as a SQL literal; its
/// one parameter is the plaintext password.
pub fn quote_literal_query() -> (r: &'static str)
    ensures
        r@ == "SELECT quote_literal($1)"@,
{
    "SELECT quote_literal($1)"
}

/// The statement that creates a database.
pub open spec fn create_database_sql(name: Seq<char>) -> Seq<char> {
    "CREATE DATABASE "@ + name
}

/// The statement that creates a login role without database- or
/// role-creation privileges; `escaped_password` must already be a quoted
/// SQL literal.
pub open spec fn create_role_sql(role: Seq<char>, escaped_password: Seq<char>) -> Seq<char> {
    "CREATE ROLE "@ + role + " WITH LOGIN PASSWORD "@ + escaped_password
        + " NOCREATEDB NOCREATEROLE"@
}

/// What an idempotent existence-checked creation step does next.
pub enum EnsureAction {
    /// The target already exists; nothing is executed.
    AlreadyExists,
    /// The target is absent; `sql` is executed to create it.
    Create { sql: String },
}

/// Decides a database-creation step from the catalog's answer. The
/// existing database is never dropped or altered.
pub fn plan_ensure_database(exists: bool, name: &Ident) -> (r: EnsureAction)
    ensures
        exists <==> r is AlreadyExists,
        r matches EnsureAction::Create { sql } ==> sql@ == create_database_sql(name@),
{
    if exists {
        EnsureAction::AlreadyExists
    } else {
        let mut sql = "CREATE DATABASE ".to_string();
        sql.append(name.as_str());
        EnsureAction::Create { sql }
    }
}

/// Decides a role-creation step from the catalog's answer. An existing
/// role is left untouched: in particular its password is not updated.
pub fn plan_ensure_role(exists: bool, role: &Ident, escaped_password: &str) -> (r: EnsureAction)
    ensures
        exists <==> r is AlreadyExists,
        r matches EnsureAction::Create { sql } ==> sql@ == create_role_sql(
            role@,
            escaped_password@,
        ),
{
    if exists {
        EnsureAction::AlreadyExists
    } else {
        let mut sql = "CREATE ROLE ".to_string();
        sql.append(role.as_str());
        sql.append(" WITH LOGIN PASSWORD ");
        sql.append(escaped_password);
        sql.append(" NOCREATEDB NOCREATEROLE");
        EnsureAction::Create { sql }
    }
}

/// The query that looks up the database a workspace is bound to; its one
/// parameter is the workspace name.
pub fn binding_lookup_query() -> (r: &'static str)
    ensures
        r@ == "SELECT database FROM ytx_workspace_database WHERE workspace = $1"@,
{
    "SELECT database FROM ytx_workspace_database WHERE workspace = $1"
}

/// The statement that inserts a new workspace binding; its parameters are
/// the workspace and the database.
pub fn binding_insert_sql() -> (r: &'static str)
    ensures
        r@ == r#"
        INSERT INTO ytx_workspace_database (workspace, database)
        VALUES ($1, $2);
    "#@,
{
    r#"
        INSERT INTO ytx_workspace_database (workspace, database)
        VALUES ($1, $2);
    "#
}

/// What a workspace-binding step does next.
#[derive(Debug)]
pub enum BindPlan {
    /// No binding exists yet; the insert statement is executed.
    Insert,
    /// The workspace is already bound to the requested database; the step
    /// is a successful no-op.
    AlreadyBoundSame,
}

/// Decides a workspace-binding step from the stored binding.
///
/// A workspace bound to a different database is a terminal configuration
/// error and the stored binding is left untouched.
pub fn plan_binding(existing: &Option<String>, workspace: &Ident, database: &Ident) -> (r: Result<
    BindPlan,
    ProvisionError,
>)
    ensures
        existing is None ==> r == Ok::<BindPlan, ProvisionError>(BindPlan::Insert),
        (existing matches Some(d) && d@ == database@) ==> r == Ok::<BindPlan, ProvisionError>(
            BindPlan::AlreadyBoundSame,
        ),
        (existing is Some && existing->0@ != database@) ==> (r matches Err(e) && (e matches
            ProvisionError::WorkspaceConflict { workspace: w, existing: ex, requested: rq }
            && w@ == workspace@ && ex@ == existing->0@ && rq@ == database@)),
{
    match existing {
        None => Ok(BindPlan::Insert),
        Some(d) => {
            if *d == database.to_text() {
                Ok(BindPlan::AlreadyBoundSame)
            } else {
                Err(
                    ProvisionError::WorkspaceConflict {
                        workspace: workspace.to_text(),
                        existing: d.clone(),
                        requested: database.to_text(),
                    },
                )
            }
        },
    }
}

/// The two staged permission levels.
#[derive(Clone, Copy, Debug, PartialEq, Eq, Structural)]
pub enum GrantLevel {
    ReadOnly,
    ReadWrite,
}

/// One grant statement and the connection it is issued on: the superuser
/// connection for database-level grants, the target database's own
/// connection for everything else.
pub struct GrantStatement {
    pub on_superuser: bool,
    pub sql: String,
}

pub open spec fn grant_connect_sql(db: Seq<char>, role: Seq<char>) -> Seq<char> {
    "GRANT CONNECT ON DATABASE "@ + db + " TO "@ + role
}

pub open spec fn grant_usage_sql(role: Seq<char>) -> Seq<char> {
    "GRANT USAGE ON SCHEMA public TO "@ + role
}

pub open spec fn grant_select_sql(role: Seq<char>) -> Seq<char> {
    "GRANT SELECT ON ALL TABLES IN SCHEMA public TO "@ + role
}

pub open spec fn default_select_sql(role: Seq<char>) -> Seq<char> {
    "ALTER DEFAULT PRIVILEGES IN SCHEMA public GRANT SELECT ON TABLES TO "@ + role
}

pub open spec fn grant_dml_sql(role: Seq<char>) -> Seq<char> {
    "GRANT SELECT, INSERT, UPDATE, DELETE ON ALL TABLES IN SCHEMA public TO "@ + role
}

pub open spec fn grant_sequences_sql(role: Seq<char>) -> Seq<char> {
    "GRANT USAGE, SELECT, UPDATE ON ALL SEQUENCES IN SCHEMA public TO "@ + role
}

pub open spec fn default_dml_sql(role: Seq<char>) -> Seq<char> {
    "ALTER DEFAULT PRIVILEGES IN SCHEMA public GRANT SELECT, INSERT, UPDATE, DELETE ON TABLES TO "@
        + role
}

pub open spec fn default_sequences_sql(role: Seq<char>) -> Seq<char> {
    "ALTER DEFAULT PRIVILEGES IN SCHEMA public GRANT USAGE, SELECT, UPDATE ON SEQUENCES TO "@
        + role
}

/// The ordered grant pass for one level: read-only grants CONNECT, schema
/// USAGE and SELECT on existing and future tables; read-write additionally
/// grants INSERT/UPDATE/DELETE and sequence access, existing and future.
pub open spec fn grant_sqls(level: GrantLevel, db: Seq<char>, role: Seq<char>) -> Seq<
    (bool, Seq<char>),
> {
    match level {
        GrantLevel::ReadOnly => seq![
            (true, grant_connect_sql(db, role)),
            (false, grant_usage_sql(role)),
            (false, grant_select_sql(role)),
            (false, default_select_sql(role)),
        ],
        GrantLevel::ReadWrite => seq![
            (true, grant_connect_sql(db, role)),
            (false, grant_usage_sql(role)),
            (false, grant_dml_sql(role)),
            (false, grant_sequences_sql(role)),
            (false, default_dml_sql(role)),
            (false, default_sequences_sql(role)),
        ],
    }
}

/// The view of each element of a grant pass.
pub open spec fn grant_views(s: Seq<GrantStatement>) -> Seq<(bool, Seq<char>)> {
    Seq::new(s.len(), |i: int| (s[i].on_superuser, s[i].sql@))
}

fn role_grant(prefix: &str, role: &Ident) -> (r: String)
    ensures
        r@ == prefix@ + role@,
{
    let mut sql = prefix.to_string();
    sql.append(role.as_str());
    sql
}

/// Builds the ordered grant pass for one level against one database and
/// role. Each statement is issued independently, outside any transaction:
/// a failure partway leaves a partially granted role, repaired by re-run.
pub fn grant_statements(level: GrantLevel, database: &Ident, role: &Ident) -> (r: Vec<
    GrantStatement,
>)
    ensures
        grant_views(r@) == grant_sqls(level, database@, role@),
{
    let mut connect = "GRANT CONNECT ON DATABASE ".to_string();
    connect.append(database.as_str());
    connect.append(" TO ");
    connect.append(role.as_str());
    let mut r: Vec<GrantStatement> = Vec::new();
    r.push(GrantStatement { on_superuser: true, sql: connect });
    r.push(
        GrantStatement {
            on_superuser: false,
            sql: role_grant("GRANT USAGE ON SCHEMA public TO ", role),
        },
    );
    match level {
        GrantLevel::ReadOnly => {
            r.push(
                GrantStatement {
                    on_superuser: false,
                    sql: role_grant("GRANT SELECT ON ALL TABLES IN SCHEMA public TO ", role),
                },
            );
            r.push(
                GrantStatement {
                    on_superuser: false,
                    sql: role_grant(
                        "ALTER DEFAULT PRIVILEGES IN SCHEMA public GRANT SELECT ON TABLES TO ",
                        role,
                    ),
                },
            );
        },
        GrantLevel::ReadWrite => {
            r.push(
                GrantStatement {
                    on_superuser: false,
                    sql: role_grant(
                        "GRANT SELECT, INSERT, UPDATE, DELETE ON ALL TABLES IN SCHEMA public TO ",
                        role,
                    ),
                },
            );
            r.push(
                GrantStatement {
                    on_superuser: false,
                    sql: role_grant(
                        "GRANT USAGE, SELECT, UPDATE ON ALL SEQUENCES IN SCHEMA public TO ",
                        role,
                    ),
                },
            );
            r.push(
                GrantStatement {
                    on_superuser: false,
                    sql: role_grant(
                        "ALTER DEFAULT PRIVILEGES IN SCHEMA public GRANT SELECT, INSERT, UPDATE, DELETE ON TABLES TO ",
                        role,
                    ),
                },
            );
            r.push(
                GrantStatement {
                    on_superuser: false,
                    sql: role_grant(
                        "ALTER DEFAULT PRIVILEGES IN SCHEMA public GRANT USAGE, SELECT, UPDATE ON SEQUENCES TO ",
                        role,
                    ),
                },
            );
        },
    }
    proof {
        assert(grant_views(r@) =~= grant_sqls(level, database@, role@));
    }
    r
}

/// Builds a permission-grant error embedding the failing statement.
pub fn grant_failure(statement: &GrantStatement, detail: String) -> (e: ProvisionError)
    ensures
        e matches ProvisionError::PermissionGrant { statement: s, detail: d } && s@
            == statement.sql@ && d == detail,
{
    ProvisionError::PermissionGrant { statement: statement.sql.clone(), detail }
}

/// One transactional schema-application pass.
///
/// The pass executes its statements in order inside a single transaction.
/// The caller repeatedly takes [`SchemaRun::current`], executes the
/// statement, and either [`SchemaRun::advance`]s or, on the first failure,
/// rolls the transaction back and reports [`SchemaRun::failure`]; when no
/// statement is left the transaction is committed.
pub struct SchemaRun {
    statements: Vec<String>,
    next: usize,
}

impl SchemaRun {
    #[verifier::type_invariant]
    spec fn inv(self) -> bool {
        self.next <= self.statements.len()
    }

    /// The statement texts of this pass, in execution order.
    pub closed spec fn statements_view(self) -> Seq<Seq<char>> {
        views_of(self.statements@)
    }

    /// How many statements have already succeeded.
    pub closed spec fn position(self) -> int {
        self.next as int
    }

    /// Starts a pass over an ordered statement list.
    pub fn new(statements: Vec<String>) -> (r: SchemaRun)
        ensures
            r.statements_view() == views_of(statements@),
            r.position() == 0,
    {
        SchemaRun { statements, next: 0 }
    }

    /// The next statement to execute, or `None` when every statement has
    /// succeeded and the transaction is to be committed.
    pub fn current(&self) -> (r: Option<String>)
        ensures
            r is Some <==> self.position() < self.statements_view().len(),
            r matches Some(s) ==> s@ == self.statements_view()[self.position()],
    {
        proof {
            use_type_invariant(self);
        }
        if self.next < self.statements.len() {
            Some(self.statements[self.next].clone())
        } else {
            None
        }
    }

    /// Records that the current statement succeeded.
    pub fn advance(&mut self)
        requires
            old(self).position() < old(self).statements_view().len(),
        ensures
            final(self).statements_view() == old(self).statements_view(),
            final(self).position() == old(self).position() + 1,
    {
        proof {
            use_type_invariant(&*self);
        }
        self.next = self.next + 1;
    }

    /// Builds the error for a failed current statement: the pass is over,
    /// the transaction must be rolled back, every later statement is
    /// skipped, and the error embeds the failing statement's text.
    pub fn failure(&self, detail: String) -> (e: ProvisionError)
        requires
            self.position() < self.statements_view().len(),
        ensures
            e matches ProvisionError::SchemaApplication { statement, detail: d } && statement@
                == self.statements_view()[self.position()] && d == detail,
    {
        proof {
            use_type_invariant(self);
        }
        ProvisionError::SchemaApplication {
            statement: self.statements[self.next].clone(),
            detail,
        }
    }
}

} // verus!
