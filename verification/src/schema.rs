//! The fixed schema catalog.
//!
//! Pure builders for every DDL/DML statement of the auth and main
//! databases, and the two ordered statement lists that a
//! schema-application pass executes as one atomic unit.

use vstd::prelude::*;
use vstd::string::StringExecFns;

use crate::section::Section;
use crate::section::section_name;

verus! {

/// The user table of the auth database.
pub open spec fn ytx_user_sql() -> Seq<char> {
    r#"
    CREATE TABLE IF NOT EXISTS ytx_user (
        id             UUID PRIMARY KEY,        -- Internal user identity (e.g., for business logic)
        email          TEXT UNIQUE,             -- User contact
        password_hash  TEXT NOT NULL,           -- Hashed user login password (bcrypt/argon2)
        register_time  TIMESTAMPTZ(0),
        updated_time   TIMESTAMPTZ(0),
        updated_by     UUID,
        last_login     TIMESTAMPTZ(0),
        is_valid       BOOLEAN DEFAULT TRUE
    );
    "#@
}

pub fn ytx_user() -> (r: String)
    ensures
        r@ == ytx_user_sql(),
{
    r#"
    CREATE TABLE IF NOT EXISTS ytx_user (
        id             UUID PRIMARY KEY,        -- Internal user identity (e.g., for business logic)
        email          TEXT UNIQUE,             -- User contact
        password_hash  TEXT NOT NULL,           -- Hashed user login password (bcrypt/argon2)
        register_time  TIMESTAMPTZ(0),
        updated_time   TIMESTAMPTZ(0),
        updated_by     UUID,
        last_login     TIMESTAMPTZ(0),
        is_valid       BOOLEAN DEFAULT TRUE
    );
    "#.to_string()
}

/// The role-workspace membership table of the auth database.
pub open spec fn ytx_role_workspace_sql() -> Seq<char> {
    r#"
    CREATE TABLE IF NOT EXISTS ytx_role_workspace (
        user_id               UUID NOT NULL,                    -- Matches id in ytx_user (manually managed)
        role                  TEXT NOT NULL,
        workspace             TEXT NOT NULL,
        is_access_enabled     BOOLEAN DEFAULT FALSE,            -- Access to workspace
        register_time         TIMESTAMPTZ(0),
        updated_time          TIMESTAMPTZ(0),
        updated_by            UUID,
        is_valid              BOOLEAN DEFAULT TRUE,
        PRIMARY KEY (user_id, workspace)
    );
    "#@
}

pub fn ytx_role_workspace() -> (r: String)
    ensures
        r@ == ytx_role_workspace_sql(),
{
    r#"
    CREATE TABLE IF NOT EXISTS ytx_role_workspace (
        user_id               UUID NOT NULL,                    -- Matches id in ytx_user (manually managed)
        role                  TEXT NOT NULL,
        workspace             TEXT NOT NULL,
        is_access_enabled     BOOLEAN DEFAULT FALSE,            -- Access to workspace
        register_time         TIMESTAMPTZ(0),
        updated_time          TIMESTAMPTZ(0),
        updated_by            UUID,
        is_valid              BOOLEAN DEFAULT TRUE,
        PRIMARY KEY (user_id, workspace)
    );
    "#.to_string()
}

/// The workspace-to-database binding table of the auth database.
pub open spec fn ytx_workspace_database_sql() -> Seq<char> {
    r#"
    CREATE TABLE IF NOT EXISTS ytx_workspace_database (
        workspace        TEXT PRIMARY KEY,
        database         TEXT NOT NULL,
        created_time     TIMESTAMPTZ(0),
        updated_time     TIMESTAMPTZ(0),
        updated_by       UUID,
        is_valid         BOOLEAN DEFAULT TRUE
    );
    "#@
}

pub fn ytx_workspace_database() -> (r: String)
    ensures
        r@ == ytx_workspace_database_sql(),
{
    r#"
    CREATE TABLE IF NOT EXISTS ytx_workspace_database (
        workspace        TEXT PRIMARY KEY,
        database         TEXT NOT NULL,
        created_time     TIMESTAMPTZ(0),
        updated_time     TIMESTAMPTZ(0),
        updated_by       UUID,
        is_valid         BOOLEAN DEFAULT TRUE
    );
    "#.to_string()
}

/// The marker table recording that a database is managed by this system.
pub open spec fn ytx_meta_sql() -> Seq<char> {
    r#"
        CREATE TABLE IF NOT EXISTS ytx_meta (
            key TEXT PRIMARY KEY,
            value BOOLEAN,
            created_time TIMESTAMPTZ(0) DEFAULT now()
        );
        "#@
}

pub fn ytx_meta() -> (r: String)
    ensures
        r@ == ytx_meta_sql(),
{
    r#"
        CREATE TABLE IF NOT EXISTS ytx_meta (
            key TEXT PRIMARY KEY,
            value BOOLEAN,
            created_time TIMESTAMPTZ(0) DEFAULT now()
        );
        "#.to_string()
}

/// The idempotent marker-row upsert.
pub open spec fn insert_meta_sql() -> Seq<char> {
    r#"
        INSERT INTO ytx_meta (key, value)
        VALUES ('ytx_managed', TRUE)
        ON CONFLICT (key) DO NOTHING;
        "#@
}

pub fn insert_meta() -> (r: String)
    ensures
        r@ == insert_meta_sql(),
{
    r#"
        INSERT INTO ytx_meta (key, value)
        VALUES ('ytx_managed', TRUE)
        ON CONFLICT (key) DO NOTHING;
        "#.to_string()
}

/// The per-section global configuration table.
pub open spec fn global_config_sql() -> Seq<char> {
    r#"
    CREATE TABLE IF NOT EXISTS global_config (
        section TEXT PRIMARY KEY,
        default_unit     INTEGER        DEFAULT 0,
        document_dir     TEXT           DEFAULT '',
        updated_time     TIMESTAMPTZ(0) DEFAULT now(),
        updated_by       UUID
    );
    "#@
}

pub fn global_config() -> (r: String)
    ensures
        r@ == global_config_sql(),
{
    r#"
    CREATE TABLE IF NOT EXISTS global_config (
        section TEXT PRIMARY KEY,
        default_unit     INTEGER        DEFAULT 0,
        document_dir     TEXT           DEFAULT '',
        updated_time     TIMESTAMPTZ(0) DEFAULT now(),
        updated_by       UUID
    );
    "#.to_string()
}

/// The idempotent default-configuration row insertion for one section.
pub open spec fn insert_global_config_sql(section: Seq<char>) -> Seq<char> {
    r#"
        INSERT INTO global_config (section)
        VALUES ('"#@ + section + r#"')
        ON CONFLICT (section) DO NOTHING;
        "#@
}

pub fn insert_global_config(section: &str) -> (r: String)
    ensures
        r@ == insert_global_config_sql(section@),
{
    let mut r = r#"
        INSERT INTO global_config (section)
        VALUES ('"#.to_string();
    r.append(section);
    r.append(r#"')
        ON CONFLICT (section) DO NOTHING;
        "#);
    r
}

/// The finance node table.
pub open spec fn f_node_sql() -> Seq<char> {
    r#"
        CREATE TABLE IF NOT EXISTS finance_node (
            id               UUID PRIMARY KEY,
            name             TEXT,
            code             TEXT,
            description      TEXT,
            note             TEXT,
            kind             INTEGER,
            direction_rule   BOOLEAN DEFAULT FALSE,
            unit             INTEGER,
            initial_total    NUMERIC(16, 4),
            final_total      NUMERIC(16, 4),
            user_id          UUID,
            created_time     TIMESTAMPTZ(0),
            created_by       UUID,
            updated_time     TIMESTAMPTZ(0),
            updated_by       UUID,
            is_valid         BOOLEAN DEFAULT TRUE
        );
        "#@
}

pub fn f_node_table() -> (r: String)
    ensures
        r@ == f_node_sql(),
{
    r#"
        CREATE TABLE IF NOT EXISTS finance_node (
            id               UUID PRIMARY KEY,
            name             TEXT,
            code             TEXT,
            description      TEXT,
            note             TEXT,
            kind             INTEGER,
            direction_rule   BOOLEAN DEFAULT FALSE,
            unit             INTEGER,
            initial_total    NUMERIC(16, 4),
            final_total      NUMERIC(16, 4),
            user_id          UUID,
            created_time     TIMESTAMPTZ(0),
            created_by       UUID,
            updated_time     TIMESTAMPTZ(0),
            updated_by       UUID,
            is_valid         BOOLEAN DEFAULT TRUE
        );
        "#.to_string()
}

/// The finance entry table.
pub open spec fn f_entry_sql() -> Seq<char> {
    r#"
        CREATE TABLE IF NOT EXISTS finance_entry (
            id             UUID PRIMARY KEY,
            issued_time    TIMESTAMPTZ(0),
            code           TEXT,
            lhs_node       UUID,
            lhs_rate       NUMERIC(16, 8) CHECK (lhs_rate   >  0),
            lhs_debit      NUMERIC(12, 4) CHECK (lhs_debit  >= 0),
            lhs_credit     NUMERIC(12, 4) CHECK (lhs_credit >= 0),
            description    TEXT,
            support_node   UUID,
            document       TEXT,
            is_checked     BOOLEAN DEFAULT FALSE,
            rhs_credit     NUMERIC(16, 8) CHECK (rhs_credit >= 0),
            rhs_debit      NUMERIC(12, 4) CHECK (rhs_debit  >= 0),
            rhs_rate       NUMERIC(12, 4) CHECK (rhs_rate   >  0),
            rhs_node       UUID,
            user_id        UUID,
            created_time   TIMESTAMPTZ(0),
            created_by     UUID,
            updated_time   TIMESTAMPTZ(0),
            updated_by     UUID,
            is_valid       BOOLEAN DEFAULT TRUE
        );
        "#@
}

pub fn f_entry_table() -> (r: String)
    ensures
        r@ == f_entry_sql(),
{
    r#"
        CREATE TABLE IF NOT EXISTS finance_entry (
            id             UUID PRIMARY KEY,
            issued_time    TIMESTAMPTZ(0),
            code           TEXT,
            lhs_node       UUID,
            lhs_rate       NUMERIC(16, 8) CHECK (lhs_rate   >  0),
            lhs_debit      NUMERIC(12, 4) CHECK (lhs_debit  >= 0),
            lhs_credit     NUMERIC(12, 4) CHECK (lhs_credit >= 0),
            description    TEXT,
            support_node   UUID,
            document       TEXT,
            is_checked     BOOLEAN DEFAULT FALSE,
            rhs_credit     NUMERIC(16, 8) CHECK (rhs_credit >= 0),
            rhs_debit      NUMERIC(12, 4) CHECK (rhs_debit  >= 0),
            rhs_rate       NUMERIC(12, 4) CHECK (rhs_rate   >  0),
            rhs_node       UUID,
            user_id        UUID,
            created_time   TIMESTAMPTZ(0),
            created_by     UUID,
            updated_time   TIMESTAMPTZ(0),
            updated_by     UUID,
            is_valid       BOOLEAN DEFAULT TRUE
        );
        "#.to_string()
}

/// The item node table.
pub open spec fn i_node_sql() -> Seq<char> {
    r#"
        CREATE TABLE IF NOT EXISTS item_node (
            id               UUID PRIMARY KEY,
            name             TEXT,
            code             TEXT,
            description      TEXT,
            note             TEXT,
            kind             INTEGER,
            direction_rule   BOOLEAN DEFAULT FALSE,
            unit             INTEGER,
            color            TEXT,
            unit_price       NUMERIC(16, 4),
            commission       NUMERIC(16, 4),
            initial_total    NUMERIC(16, 4),
            final_total      NUMERIC(16, 4),
            user_id          UUID,
            created_time     TIMESTAMPTZ(0),
            created_by       UUID,
            updated_time     TIMESTAMPTZ(0),
            updated_by       UUID,
            is_valid         BOOLEAN DEFAULT TRUE
        );
        "#@
}

pub fn i_node_table() -> (r: String)
    ensures
        r@ == i_node_sql(),
{
    r#"
        CREATE TABLE IF NOT EXISTS item_node (
            id               UUID PRIMARY KEY,
            name             TEXT,
            code             TEXT,
            description      TEXT,
            note             TEXT,
            kind             INTEGER,
            direction_rule   BOOLEAN DEFAULT FALSE,
            unit             INTEGER,
            color            TEXT,
            unit_price       NUMERIC(16, 4),
            commission       NUMERIC(16, 4),
            initial_total    NUMERIC(16, 4),
            final_total      NUMERIC(16, 4),
            user_id          UUID,
            created_time     TIMESTAMPTZ(0),
            created_by       UUID,
            updated_time     TIMESTAMPTZ(0),
            updated_by       UUID,
            is_valid         BOOLEAN DEFAULT TRUE
        );
        "#.to_string()
}

/// The item entry table.
pub open spec fn i_entry_sql() -> Seq<char> {
    r#"
        CREATE TABLE IF NOT EXISTS item_entry (
            id             UUID PRIMARY KEY,
            issued_time    TIMESTAMPTZ(0),
            code           TEXT,
            lhs_node       UUID,
            unit_cost      NUMERIC(12, 4),
            lhs_debit      NUMERIC(12, 4) CHECK (lhs_debit >= 0),
            lhs_credit     NUMERIC(12, 4) CHECK (lhs_credit >= 0),
            description    TEXT,
            support_node   UUID,
            document       TEXT,
            is_checked     BOOLEAN DEFAULT FALSE,
            rhs_credit     NUMERIC(12, 4) CHECK (rhs_credit >= 0),
            rhs_debit      NUMERIC(12, 4) CHECK (rhs_debit >= 0),
            rhs_node       UUID,
            user_id        UUID,
            created_time   TIMESTAMPTZ(0),
            created_by     UUID,
            updated_time   TIMESTAMPTZ(0),
            updated_by     UUID,
            is_valid       BOOLEAN DEFAULT TRUE
        );
        "#@
}

pub fn i_entry_table() -> (r: String)
    ensures
        r@ == i_entry_sql(),
{
    r#"
        CREATE TABLE IF NOT EXISTS item_entry (
            id             UUID PRIMARY KEY,
            issued_time    TIMESTAMPTZ(0),
            code           TEXT,
            lhs_node       UUID,
            unit_cost      NUMERIC(12, 4),
            lhs_debit      NUMERIC(12, 4) CHECK (lhs_debit >= 0),
            lhs_credit     NUMERIC(12, 4) CHECK (lhs_credit >= 0),
            description    TEXT,
            support_node   UUID,
            document       TEXT,
            is_checked     BOOLEAN DEFAULT FALSE,
            rhs_credit     NUMERIC(12, 4) CHECK (rhs_credit >= 0),
            rhs_debit      NUMERIC(12, 4) CHECK (rhs_debit >= 0),
            rhs_node       UUID,
            user_id        UUID,
            created_time   TIMESTAMPTZ(0),
            created_by     UUID,
            updated_time   TIMESTAMPTZ(0),
            updated_by     UUID,
            is_valid       BOOLEAN DEFAULT TRUE
        );
        "#.to_string()
}

/// The task node table.
pub open spec fn t_node_sql() -> Seq<char> {
    r#"
        CREATE TABLE IF NOT EXISTS task_node (
            id               UUID PRIMARY KEY,
            name             TEXT,
            code             TEXT,
            description      TEXT,
            note             TEXT,
            kind             INTEGER,
            direction_rule   BOOLEAN DEFAULT FALSE,
            unit             INTEGER,
            issued_time      TIMESTAMPTZ(0),
            color            TEXT,
            document         TEXT,
            is_finished      BOOLEAN DEFAULT FALSE,
            initial_total    NUMERIC(16, 4),
            final_total      NUMERIC(16, 4),
            user_id          UUID,
            created_time     TIMESTAMPTZ(0),
            created_by       UUID,
            updated_time     TIMESTAMPTZ(0),
            updated_by       UUID,
            is_valid         BOOLEAN DEFAULT TRUE
        );
        "#@
}

pub fn t_node_table() -> (r: String)
    ensures
        r@ == t_node_sql(),
{
    r#"
        CREATE TABLE IF NOT EXISTS task_node (
            id               UUID PRIMARY KEY,
            name             TEXT,
            code             TEXT,
            description      TEXT,
            note             TEXT,
            kind             INTEGER,
            direction_rule   BOOLEAN DEFAULT FALSE,
            unit             INTEGER,
            issued_time      TIMESTAMPTZ(0),
            color            TEXT,
            document         TEXT,
            is_finished      BOOLEAN DEFAULT FALSE,
            initial_total    NUMERIC(16, 4),
            final_total      NUMERIC(16, 4),
            user_id          UUID,
            created_time     TIMESTAMPTZ(0),
            created_by       UUID,
            updated_time     TIMESTAMPTZ(0),
            updated_by       UUID,
            is_valid         BOOLEAN DEFAULT TRUE
        );
        "#.to_string()
}

/// The task entry table.
pub open spec fn t_entry_sql() -> Seq<char> {
    r#"
        CREATE TABLE IF NOT EXISTS task_entry (
            id             UUID PRIMARY KEY,
            issued_time    TIMESTAMPTZ(0),
            code           TEXT,
            lhs_node       UUID,
            unit_cost      NUMERIC(12, 4),
            lhs_debit      NUMERIC(12, 4) CHECK (lhs_debit >= 0),
            lhs_credit     NUMERIC(12, 4) CHECK (lhs_credit >= 0),
            description    TEXT,
            support_node   UUID,
            document       TEXT,
            is_checked     BOOLEAN DEFAULT FALSE,
            rhs_credit     NUMERIC(12, 4) CHECK (rhs_credit >= 0),
            rhs_debit      NUMERIC(12, 4) CHECK (rhs_debit >= 0),
            rhs_node       UUID,
            user_id        UUID,
            created_time   TIMESTAMPTZ(0),
            created_by     UUID,
            updated_time   TIMESTAMPTZ(0),
            updated_by     UUID,
            is_valid       BOOLEAN DEFAULT TRUE
        );
        "#@
}

pub fn t_entry_table() -> (r: String)
    ensures
        r@ == t_entry_sql(),
{
    r#"
        CREATE TABLE IF NOT EXISTS task_entry (
            id             UUID PRIMARY KEY,
            issued_time    TIMESTAMPTZ(0),
            code           TEXT,
            lhs_node       UUID,
            unit_cost      NUMERIC(12, 4),
            lhs_debit      NUMERIC(12, 4) CHECK (lhs_debit >= 0),
            lhs_credit     NUMERIC(12, 4) CHECK (lhs_credit >= 0),
            description    TEXT,
            support_node   UUID,
            document       TEXT,
            is_checked     BOOLEAN DEFAULT FALSE,
            rhs_credit     NUMERIC(12, 4) CHECK (rhs_credit >= 0),
            rhs_debit      NUMERIC(12, 4) CHECK (rhs_debit >= 0),
            rhs_node       UUID,
            user_id        UUID,
            created_time   TIMESTAMPTZ(0),
            created_by     UUID,
            updated_time   TIMESTAMPTZ(0),
            updated_by     UUID,
            is_valid       BOOLEAN DEFAULT TRUE
        );
        "#.to_string()
}

/// The stakeholder node table.
pub open spec fn s_node_sql() -> Seq<char> {
    r#"
        CREATE TABLE IF NOT EXISTS stakeholder_node (
            id               UUID PRIMARY KEY,
            name             TEXT,
            code             TEXT,
            description      TEXT,
            note             TEXT,
            kind             INTEGER,
            direction_rule   BOOLEAN DEFAULT FALSE,
            unit             INTEGER,
            payment_term     INTEGER,
            initial_total    NUMERIC(16, 4),
            final_total      NUMERIC(16, 4),
            user_id          UUID,
            created_time     TIMESTAMPTZ(0),
            created_by       UUID,
            updated_time     TIMESTAMPTZ(0),
            updated_by       UUID,
            is_valid         BOOLEAN DEFAULT TRUE
        );
        "#@
}

pub fn s_node_table() -> (r: String)
    ensures
        r@ == s_node_sql(),
{
    r#"
        CREATE TABLE IF NOT EXISTS stakeholder_node (
            id               UUID PRIMARY KEY,
            name             TEXT,
            code             TEXT,
            description      TEXT,
            note             TEXT,
            kind             INTEGER,
            direction_rule   BOOLEAN DEFAULT FALSE,
            unit             INTEGER,
            payment_term     INTEGER,
            initial_total    NUMERIC(16, 4),
            final_total      NUMERIC(16, 4),
            user_id          UUID,
            created_time     TIMESTAMPTZ(0),
            created_by       UUID,
            updated_time     TIMESTAMPTZ(0),
            updated_by       UUID,
            is_valid         BOOLEAN DEFAULT TRUE
        );
        "#.to_string()
}

/// The stakeholder entry table.
pub open spec fn s_entry_sql() -> Seq<char> {
    r#"
        CREATE TABLE IF NOT EXISTS stakeholder_entry (
            id                 UUID PRIMARY KEY,
            issued_time        TIMESTAMPTZ(0),
            code               TEXT,
            lhs_node           UUID,
            unit_price         NUMERIC(12, 4),
            description        TEXT,
            external_item      UUID,
            document           TEXT,
            is_checked         BOOLEAN DEFAULT FALSE,
            rhs_node           UUID,
            user_id            UUID,
            created_time       TIMESTAMPTZ(0),
            created_by         UUID,
            updated_time       TIMESTAMPTZ(0),
            updated_by         UUID,
            is_valid           BOOLEAN DEFAULT TRUE,
            UNIQUE(lhs_node, rhs_node)
        );
        "#@
}

pub fn s_entry_table() -> (r: String)
    ensures
        r@ == s_entry_sql(),
{
    r#"
        CREATE TABLE IF NOT EXISTS stakeholder_entry (
            id                 UUID PRIMARY KEY,
            issued_time        TIMESTAMPTZ(0),
            code               TEXT,
            lhs_node           UUID,
            unit_price         NUMERIC(12, 4),
            description        TEXT,
            external_item      UUID,
            document           TEXT,
            is_checked         BOOLEAN DEFAULT FALSE,
            rhs_node           UUID,
            user_id            UUID,
            created_time       TIMESTAMPTZ(0),
            created_by         UUID,
            updated_time       TIMESTAMPTZ(0),
            updated_by         UUID,
            is_valid           BOOLEAN DEFAULT TRUE,
            UNIQUE(lhs_node, rhs_node)
        );
        "#.to_string()
}

/// The order node table for one order section.
pub open spec fn o_node_sql(order: Seq<char>) -> Seq<char> {
    r#"
        CREATE TABLE IF NOT EXISTS "#@ + order + r#"_node (
            id                UUID PRIMARY KEY,
            name              TEXT,
            code              TEXT,
            description       TEXT,
            note              TEXT,
            kind              INTEGER,
            direction_rule    BOOLEAN DEFAULT FALSE,
            unit              INTEGER,
            party             UUID,
            employee          UUID,
            issued_time       TIMESTAMPTZ(0),
            first_total       NUMERIC(16, 4),
            second_total      NUMERIC(16, 4),
            is_finished       BOOLEAN DEFAULT FALSE,
            initial_total     NUMERIC(16, 4),
            discount_total    NUMERIC(16, 4),
            final_total       NUMERIC(16, 4),
            settlement_node   UUID,
            user_id           UUID,
            created_time      TIMESTAMPTZ(0),
            created_by        UUID,
            updated_time      TIMESTAMPTZ(0),
            updated_by        UUID,
            is_valid          BOOLEAN DEFAULT TRUE
        );
        "#@
}

pub fn o_node_table(order: &str) -> (r: String)
    ensures
        r@ == o_node_sql(order@),
{
    let mut r = r#"
        CREATE TABLE IF NOT EXISTS "#.to_string();
    r.append(order);
    r.append(r#"_node (
            id                UUID PRIMARY KEY,
            name              TEXT,
            code              TEXT,
            description       TEXT,
            note              TEXT,
            kind              INTEGER,
            direction_rule    BOOLEAN DEFAULT FALSE,
            unit              INTEGER,
            party             UUID,
            employee          UUID,
            issued_time       TIMESTAMPTZ(0),
            first_total       NUMERIC(16, 4),
            second_total      NUMERIC(16, 4),
            is_finished       BOOLEAN DEFAULT FALSE,
            initial_total     NUMERIC(16, 4),
            discount_total    NUMERIC(16, 4),
            final_total       NUMERIC(16, 4),
            settlement_node   UUID,
            user_id           UUID,
            created_time      TIMESTAMPTZ(0),
            created_by        UUID,
            updated_time      TIMESTAMPTZ(0),
            updated_by        UUID,
            is_valid          BOOLEAN DEFAULT TRUE
        );
        "#);
    r
}

/// The order entry table for one order section.
pub open spec fn o_entry_sql(order: Seq<char>) -> Seq<char> {
    r#"
        CREATE TABLE IF NOT EXISTS "#@ + order + r#"_entry (
            id                  UUID PRIMARY KEY,
            issued_time         TIMESTAMPTZ(0),
            code                TEXT,
            lhs_node            UUID,
            unit_price          NUMERIC(12, 4),
            first               NUMERIC(12, 4),
            second              NUMERIC(12, 4),
            description         TEXT,
            external_item       UUID,
            document            TEXT,
            is_checked          BOOLEAN DEFAULT FALSE,
            discount            NUMERIC(12, 4),
            final               NUMERIC(12, 4),
            initial             NUMERIC(12, 4),
            discount_price      NUMERIC(12, 4),
            rhs_node            UUID,
            user_id             UUID,
            created_time        TIMESTAMPTZ(0),
            created_by          UUID,
            updated_time        TIMESTAMPTZ(0),
            updated_by          UUID,
            is_valid            BOOLEAN DEFAULT TRUE
        );
        "#@
}

pub fn o_entry_table(order: &str) -> (r: String)
    ensures
        r@ == o_entry_sql(order@),
{
    let mut r = r#"
        CREATE TABLE IF NOT EXISTS "#.to_string();
    r.append(order);
    r.append(r#"_entry (
            id                  UUID PRIMARY KEY,
            issued_time         TIMESTAMPTZ(0),
            code                TEXT,
            lhs_node            UUID,
            unit_price          NUMERIC(12, 4),
            first               NUMERIC(12, 4),
            second              NUMERIC(12, 4),
            description         TEXT,
            external_item       UUID,
            document            TEXT,
            is_checked          BOOLEAN DEFAULT FALSE,
            discount            NUMERIC(12, 4),
            final               NUMERIC(12, 4),
            initial             NUMERIC(12, 4),
            discount_price      NUMERIC(12, 4),
            rhs_node            UUID,
            user_id             UUID,
            created_time        TIMESTAMPTZ(0),
            created_by          UUID,
            updated_time        TIMESTAMPTZ(0),
            updated_by          UUID,
            is_valid            BOOLEAN DEFAULT TRUE
        );
        "#);
    r
}

/// The settlement table for one order section.
pub open spec fn o_settlement_sql(order: Seq<char>) -> Seq<char> {
    r#"
            CREATE TABLE IF NOT EXISTS "#@ + order + r#"_settlement (
                id               UUID PRIMARY KEY,
                party            UUID,
                issued_time      TIMESTAMPTZ(0),
                description      TEXT,
                is_finished      BOOLEAN DEFAULT FALSE,
                initial_total    NUMERIC(16, 4),
                user_id          UUID,
                created_time     TIMESTAMPTZ(0),
                created_by       UUID,
                updated_time     TIMESTAMPTZ(0),
                updated_by       UUID,
                is_valid         BOOLEAN DEFAULT TRUE
            );
            "#@
}

pub fn o_settlement_table(order: &str) -> (r: String)
    ensures
        r@ == o_settlement_sql(order@),
{
    let mut r = r#"
            CREATE TABLE IF NOT EXISTS "#.to_string();
    r.append(order);
    r.append(r#"_settlement (
                id               UUID PRIMARY KEY,
                party            UUID,
                issued_time      TIMESTAMPTZ(0),
                description      TEXT,
                is_finished      BOOLEAN DEFAULT FALSE,
                initial_total    NUMERIC(16, 4),
                user_id          UUID,
                created_time     TIMESTAMPTZ(0),
                created_by       UUID,
                updated_time     TIMESTAMPTZ(0),
                updated_by       UUID,
                is_valid         BOOLEAN DEFAULT TRUE
            );
            "#);
    r
}

/// The hierarchy-closure table for one section.
pub open spec fn path_table_sql(table_name: Seq<char>) -> Seq<char> {
    r#"
        CREATE TABLE IF NOT EXISTS "#@ + table_name + r#"_path (
            ancestor      UUID,
            descendant    UUID,
            distance      INTEGER DEFAULT 1 CHECK (distance = 1),
            PRIMARY KEY (ancestor, descendant)
        );
        "#@
}

pub fn path_table(table_name: &str) -> (r: String)
    ensures
        r@ == path_table_sql(table_name@),
{
    let mut r = r#"
        CREATE TABLE IF NOT EXISTS "#.to_string();
    r.append(table_name);
    r.append(r#"_path (
            ancestor      UUID,
            descendant    UUID,
            distance      INTEGER DEFAULT 1 CHECK (distance = 1),
            PRIMARY KEY (ancestor, descendant)
        );
        "#);
    r
}

/// The view of each element of a statement list.
pub open spec fn views_of(s: Seq<String>) -> Seq<Seq<char>> {
    Seq::new(s.len(), |i: int| s[i]@)
}

/// The ordered statement list of an auth-database schema pass: user table,
/// role-workspace membership table, workspace-database binding table.
pub open spec fn auth_statements_spec() -> Seq<Seq<char>> {
    seq![ytx_user_sql(), ytx_role_workspace_sql(), ytx_workspace_database_sql()]
}

pub fn auth_statements() -> (r: Vec<String>)
    ensures
        views_of(r@) == auth_statements_spec(),
{
    let mut r: Vec<String> = Vec::new();
    r.push(ytx_user());
    r.push(ytx_role_workspace());
    r.push(ytx_workspace_database());
    proof {
        assert(views_of(r@) =~= auth_statements_spec());
    }
    r
}

/// The ordered statement list of a main-database schema pass: marker and
/// configuration tables, the four node tables and their entry tables, one
/// path table and one default-configuration row per section, the
/// order/entry/settlement triad for the two order sections, and the final
/// marker-row upsert.
pub open spec fn main_statements_spec() -> Seq<Seq<char>> {
    seq![
        ytx_meta_sql(),
        global_config_sql(),
        f_node_sql(),
        s_node_sql(),
        i_node_sql(),
        t_node_sql(),
        f_entry_sql(),
        s_entry_sql(),
        t_entry_sql(),
        i_entry_sql(),
        path_table_sql(section_name(Section::Finance)),
        insert_global_config_sql(section_name(Section::Finance)),
        path_table_sql(section_name(Section::Stakeholder)),
        insert_global_config_sql(section_name(Section::Stakeholder)),
        path_table_sql(section_name(Section::Item)),
        insert_global_config_sql(section_name(Section::Item)),
        path_table_sql(section_name(Section::Task)),
        insert_global_config_sql(section_name(Section::Task)),
        path_table_sql(section_name(Section::Sale)),
        insert_global_config_sql(section_name(Section::Sale)),
        path_table_sql(section_name(Section::Purchase)),
        insert_global_config_sql(section_name(Section::Purchase)),
        o_node_sql(section_name(Section::Sale)),
        o_entry_sql(section_name(Section::Sale)),
        o_settlement_sql(section_name(Section::Sale)),
        o_node_sql(section_name(Section::Purchase)),
        o_entry_sql(section_name(Section::Purchase)),
        o_settlement_sql(section_name(Section::Purchase)),
        insert_meta_sql(),
    ]
}

pub fn main_statements() -> (r: Vec<String>)
    ensures
        views_of(r@) == main_statements_spec(),
{
    let mut r: Vec<String> = Vec::new();
    r.push(ytx_meta());
    r.push(global_config());
    r.push(f_node_table());
    r.push(s_node_table());
    r.push(i_node_table());
    r.push(t_node_table());
    r.push(f_entry_table());
    r.push(s_entry_table());
    r.push(t_entry_table());
    r.push(i_entry_table());
    r.push(path_table(Section::Finance.name()));
    r.push(insert_global_config(Section::Finance.name()));
    r.push(path_table(Section::Stakeholder.name()));
    r.push(insert_global_config(Section::Stakeholder.name()));
    r.push(path_table(Section::Item.name()));
    r.push(insert_global_config(Section::Item.name()));
    r.push(path_table(Section::Task.name()));
    r.push(insert_global_config(Section::Task.name()));
    r.push(path_table(Section::Sale.name()));
    r.push(insert_global_config(Section::Sale.name()));
    r.push(path_table(Section::Purchase.name()));
    r.push(insert_global_config(Section::Purchase.name()));
    r.push(o_node_table(Section::Sale.name()));
    r.push(o_entry_table(Section::Sale.name()));
    r.push(o_settlement_table(Section::Sale.name()));
    r.push(o_node_table(Section::Purchase.name()));
    r.push(o_entry_table(Section::Purchase.name()));
    r.push(o_settlement_table(Section::Purchase.name()));
    r.push(insert_meta());
    proof {
        assert(views_of(r@) =~= main_statements_spec());
    }
    r
}

} // verus!
