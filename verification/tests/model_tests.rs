use ytx_provision::errors::ProvisionError;
use ytx_provision::ident::Ident;
use ytx_provision::model::ModelServer;
use ytx_provision::model::provision;
use ytx_provision::model::run_bootstrap;
use ytx_provision::provision::Config;
use ytx_provision::provision::GrantLevel;
use ytx_provision::schema::auth_statements;
use ytx_provision::schema::f_entry_table;
use ytx_provision::schema::insert_meta;
use ytx_provision::schema::main_statements;
use ytx_provision::secrets::PasswordSet;
use ytx_provision::secrets::SecretDocument;
use ytx_provision::secrets::SecretEntry;

fn ident(s: &str) -> Ident {
    Ident::new(s.to_string()).unwrap()
}

fn config() -> Config {
    Config {
        auth_db: ident("ytx_auth"),
        main_db: ident("ytx_main"),
        workspace: ident("ytx_workspace"),
        superuser_role: ident("postgres"),
        auth_rw_role: ident("ytx_auth_readwrite"),
        main_ro_role: ident("ytx_main_readonly"),
        main_rw_role: ident("ytx_main_readwrite"),
    }
}

fn passwords() -> PasswordSet {
    PasswordSet {
        superuser: "su_pw".to_string(),
        auth_rw: "arw_pw".to_string(),
        main_ro: "mro_pw".to_string(),
        main_rw: "mrw_pw".to_string(),
    }
}

#[test]
fn end_to_end_clean_server() {
    let cfg = config();
    let mut server = ModelServer::new();
    let report = run_bootstrap(&cfg, &passwords(), &mut server).unwrap();
    assert!(report.auth_db_created);
    assert!(report.main_db_created);
    assert!(report.auth_rw_role_created);
    assert!(report.main_ro_role_created);
    assert!(report.main_rw_role_created);
    assert!(report.workspace_bound);
    assert_eq!(
        server.databases,
        vec!["ytx_auth".to_string(), "ytx_main".to_string()]
    );
    let role_names: Vec<String> = server.roles.iter().map(|r| r.0.clone()).collect();
    assert_eq!(
        role_names,
        vec![
            "ytx_auth_readwrite".to_string(),
            "ytx_main_readonly".to_string(),
            "ytx_main_readwrite".to_string()
        ]
    );
    assert_eq!(server.schema_of("ytx_auth"), auth_statements());
    assert_eq!(server.schema_of("ytx_main"), main_statements());
    assert!(server.schema_of("ytx_main").contains(&insert_meta()));
    assert_eq!(
        server.bindings,
        vec![("ytx_workspace".to_string(), "ytx_main".to_string())]
    );
    assert!(server.has_grant("ytx_main", "ytx_main_readonly", GrantLevel::ReadOnly));
    assert!(server.has_grant("ytx_main", "ytx_main_readwrite", GrantLevel::ReadWrite));
    assert!(server.has_grant("ytx_auth", "ytx_auth_readwrite", GrantLevel::ReadWrite));
}

#[test]
fn second_run_changes_nothing_and_reports_existing() {
    let cfg = config();
    let mut server = ModelServer::new();
    run_bootstrap(&cfg, &passwords(), &mut server).unwrap();
    let after_first = server.clone();
    let report = run_bootstrap(&cfg, &passwords(), &mut server).unwrap();
    assert_eq!(server, after_first);
    assert!(!report.auth_db_created);
    assert!(!report.main_db_created);
    assert!(!report.auth_rw_role_created);
    assert!(!report.main_ro_role_created);
    assert!(!report.main_rw_role_created);
    assert!(!report.workspace_bound);
}

#[test]
fn rerun_with_other_password_keeps_stored_password() {
    let cfg = config();
    let mut server = ModelServer::new();
    run_bootstrap(&cfg, &passwords(), &mut server).unwrap();
    let mut changed = passwords();
    changed.main_rw = "rotated".to_string();
    run_bootstrap(&cfg, &changed, &mut server).unwrap();
    let stored = server
        .roles
        .iter()
        .find(|r| r.0 == "ytx_main_readwrite")
        .unwrap();
    assert_eq!(stored.1, "mrw_pw");
}

#[test]
fn failing_main_statement_rolls_back_whole_pass() {
    let cfg = config();
    let mut server = ModelServer::new();
    server.inject_failure(f_entry_table());
    let e = run_bootstrap(&cfg, &passwords(), &mut server).unwrap_err();
    match e {
        ProvisionError::SchemaApplication { statement, .. } => {
            assert_eq!(statement, f_entry_table());
        }
        other => panic!("unexpected error {:?}", other),
    }
    // The main-database pass left nothing behind; the earlier steps stand.
    assert_eq!(server.schema_of("ytx_main"), Vec::<String>::new());
    assert_eq!(server.schema_of("ytx_auth"), auth_statements());
    assert_eq!(
        server.databases,
        vec!["ytx_auth".to_string(), "ytx_main".to_string()]
    );
    assert_eq!(
        server.bindings,
        vec![("ytx_workspace".to_string(), "ytx_main".to_string())]
    );
}

#[test]
fn failing_statement_aborts_direct_pass() {
    let mut server = ModelServer::new();
    server.inject_failure("two".to_string());
    let db = ident("ytx_main");
    let before = server.clone();
    let e = server
        .apply_statements(&db, vec!["one".to_string(), "two".to_string(), "three".to_string()])
        .unwrap_err();
    match e {
        ProvisionError::SchemaApplication { statement, .. } => assert_eq!(statement, "two"),
        other => panic!("unexpected error {:?}", other),
    }
    assert_eq!(server, before);
}

#[test]
fn rebinding_workspace_to_other_database_conflicts() {
    let cfg = config();
    let mut server = ModelServer::new();
    run_bootstrap(&cfg, &passwords(), &mut server).unwrap();
    let mut moved = config();
    moved.main_db = ident("other_db");
    let e = run_bootstrap(&moved, &passwords(), &mut server).unwrap_err();
    match e {
        ProvisionError::WorkspaceConflict { workspace, existing, requested } => {
            assert_eq!(workspace, "ytx_workspace");
            assert_eq!(existing, "ytx_main");
            assert_eq!(requested, "other_db");
        }
        other => panic!("unexpected error {:?}", other),
    }
    // The stored binding is untouched.
    assert_eq!(
        server.bindings,
        vec![("ytx_workspace".to_string(), "ytx_main".to_string())]
    );
}

#[test]
fn readonly_then_readwrite_escalates() {
    let mut server = ModelServer::new();
    let db = ident("ytx_main");
    let role = ident("ytx_main_readonly");
    server.grant(&db, &role, GrantLevel::ReadOnly);
    assert!(server.has_grant("ytx_main", "ytx_main_readonly", GrantLevel::ReadOnly));
    assert!(!server.has_grant("ytx_main", "ytx_main_readonly", GrantLevel::ReadWrite));
    server.grant(&db, &role, GrantLevel::ReadWrite);
    assert!(server.has_grant("ytx_main", "ytx_main_readonly", GrantLevel::ReadOnly));
    assert!(server.has_grant("ytx_main", "ytx_main_readonly", GrantLevel::ReadWrite));
}

#[test]
fn provision_with_missing_secret_touches_nothing() {
    let cfg = config();
    let mut server = ModelServer::new();
    let su_doc = SecretDocument {
        entries: vec![SecretEntry { key: "postgres".to_string(), value: Some("su".to_string()) }],
    };
    let roles_doc = SecretDocument { entries: Vec::new() };
    let e = provision(
        &cfg,
        true,
        passwords(),
        &Some(su_doc),
        &Some(roles_doc),
        &mut server,
    )
    .unwrap_err();
    assert!(
        matches!(e, ProvisionError::SecretFieldMissing { key } if key == "ytx_auth_readwrite")
    );
    assert_eq!(server, ModelServer::new());
}

#[test]
fn provision_disabled_runs_with_local_passwords() {
    let cfg = config();
    let mut server = ModelServer::new();
    let report = provision(&cfg, false, passwords(), &None, &None, &mut server).unwrap();
    assert!(report.workspace_bound);
    let stored = server.roles.iter().find(|r| r.0 == "ytx_auth_readwrite").unwrap();
    assert_eq!(stored.1, "arw_pw");
}
