use ytx_provision::errors::ProvisionError;
use ytx_provision::ident::Ident;
use ytx_provision::provision::BindPlan;
use ytx_provision::provision::EnsureAction;
use ytx_provision::provision::GrantLevel;
use ytx_provision::provision::SchemaRun;
use ytx_provision::provision::binding_insert_sql;
use ytx_provision::provision::binding_lookup_query;
use ytx_provision::provision::db_exists_query;
use ytx_provision::provision::grant_failure;
use ytx_provision::provision::grant_statements;
use ytx_provision::provision::plan_binding;
use ytx_provision::provision::plan_ensure_database;
use ytx_provision::provision::plan_ensure_role;
use ytx_provision::provision::quote_literal_query;
use ytx_provision::provision::role_exists_query;

fn ident(s: &str) -> Ident {
    Ident::new(s.to_string()).unwrap()
}

#[test]
fn catalog_queries_exact_text() {
    assert_eq!(
        db_exists_query(),
        "SELECT EXISTS(SELECT 1 FROM pg_database WHERE datname = $1)"
    );
    assert_eq!(
        role_exists_query(),
        "SELECT EXISTS(SELECT 1 FROM pg_roles WHERE rolname = $1)"
    );
    assert_eq!(quote_literal_query(), "SELECT quote_literal($1)");
    assert_eq!(
        binding_lookup_query(),
        "SELECT database FROM ytx_workspace_database WHERE workspace = $1"
    );
    assert!(binding_insert_sql().contains("INSERT INTO ytx_workspace_database (workspace, database)"));
}

#[test]
fn ensure_database_creates_only_when_absent() {
    let name = ident("ytx_main");
    match plan_ensure_database(false, &name) {
        EnsureAction::Create { sql } => assert_eq!(sql, "CREATE DATABASE ytx_main"),
        EnsureAction::AlreadyExists => panic!("expected a creation"),
    }
    assert!(matches!(
        plan_ensure_database(true, &name),
        EnsureAction::AlreadyExists
    ));
}

#[test]
fn ensure_role_creates_only_when_absent() {
    let role = ident("ytx_main_readwrite");
    match plan_ensure_role(false, &role, "'pw'") {
        EnsureAction::Create { sql } => assert_eq!(
            sql,
            "CREATE ROLE ytx_main_readwrite WITH LOGIN PASSWORD 'pw' NOCREATEDB NOCREATEROLE"
        ),
        EnsureAction::AlreadyExists => panic!("expected a creation"),
    }
    assert!(matches!(
        plan_ensure_role(true, &role, "'pw'"),
        EnsureAction::AlreadyExists
    ));
}

#[test]
fn binding_plan_three_ways() {
    let w = ident("ytx_workspace");
    let d1 = ident("ytx_main");
    assert!(matches!(plan_binding(&None, &w, &d1), Ok(BindPlan::Insert)));
    assert!(matches!(
        plan_binding(&Some("ytx_main".to_string()), &w, &d1),
        Ok(BindPlan::AlreadyBoundSame)
    ));
    let e = plan_binding(&Some("other_db".to_string()), &w, &d1).unwrap_err();
    match e {
        ProvisionError::WorkspaceConflict { workspace, existing, requested } => {
            assert_eq!(workspace, "ytx_workspace");
            assert_eq!(existing, "other_db");
            assert_eq!(requested, "ytx_main");
        }
        other => panic!("unexpected error {:?}", other),
    }
}

#[test]
fn readonly_grant_statements_exact() {
    let db = ident("ytx_main");
    let role = ident("ytx_main_readonly");
    let stmts = grant_statements(GrantLevel::ReadOnly, &db, &role);
    assert_eq!(stmts.len(), 4);
    assert!(stmts[0].on_superuser);
    assert_eq!(
        stmts[0].sql,
        "GRANT CONNECT ON DATABASE ytx_main TO ytx_main_readonly"
    );
    assert!(!stmts[1].on_superuser);
    assert_eq!(stmts[1].sql, "GRANT USAGE ON SCHEMA public TO ytx_main_readonly");
    assert_eq!(
        stmts[2].sql,
        "GRANT SELECT ON ALL TABLES IN SCHEMA public TO ytx_main_readonly"
    );
    assert_eq!(
        stmts[3].sql,
        "ALTER DEFAULT PRIVILEGES IN SCHEMA public GRANT SELECT ON TABLES TO ytx_main_readonly"
    );
}

#[test]
fn readwrite_grant_statements_exact() {
    let db = ident("ytx_auth");
    let role = ident("ytx_auth_readwrite");
    let stmts = grant_statements(GrantLevel::ReadWrite, &db, &role);
    assert_eq!(stmts.len(), 6);
    assert!(stmts[0].on_superuser);
    assert_eq!(
        stmts[0].sql,
        "GRANT CONNECT ON DATABASE ytx_auth TO ytx_auth_readwrite"
    );
    assert_eq!(stmts[1].sql, "GRANT USAGE ON SCHEMA public TO ytx_auth_readwrite");
    assert_eq!(
        stmts[2].sql,
        "GRANT SELECT, INSERT, UPDATE, DELETE ON ALL TABLES IN SCHEMA public TO ytx_auth_readwrite"
    );
    assert_eq!(
        stmts[3].sql,
        "GRANT USAGE, SELECT, UPDATE ON ALL SEQUENCES IN SCHEMA public TO ytx_auth_readwrite"
    );
    assert_eq!(
        stmts[4].sql,
        "ALTER DEFAULT PRIVILEGES IN SCHEMA public GRANT SELECT, INSERT, UPDATE, DELETE ON TABLES TO ytx_auth_readwrite"
    );
    assert_eq!(
        stmts[5].sql,
        "ALTER DEFAULT PRIVILEGES IN SCHEMA public GRANT USAGE, SELECT, UPDATE ON SEQUENCES TO ytx_auth_readwrite"
    );
    for s in &stmts[1..] {
        assert!(!s.on_superuser);
    }
}

#[test]
fn grant_failure_embeds_statement() {
    let db = ident("ytx_main");
    let role = ident("ytx_main_readonly");
    let stmts = grant_statements(GrantLevel::ReadOnly, &db, &role);
    let e = grant_failure(&stmts[0], "refused".to_string());
    match e {
        ProvisionError::PermissionGrant { statement, detail } => {
            assert_eq!(statement, stmts[0].sql);
            assert_eq!(detail, "refused");
        }
        other => panic!("unexpected error {:?}", other),
    }
}

#[test]
fn schema_run_steps_in_order() {
    let mut run = SchemaRun::new(vec!["one".to_string(), "two".to_string()]);
    assert_eq!(run.current(), Some("one".to_string()));
    run.advance();
    assert_eq!(run.current(), Some("two".to_string()));
    let e = run.failure("bad syntax".to_string());
    match e {
        ProvisionError::SchemaApplication { statement, detail } => {
            assert_eq!(statement, "two");
            assert_eq!(detail, "bad syntax");
        }
        other => panic!("unexpected error {:?}", other),
    }
    run.advance();
    assert_eq!(run.current(), None);
}
