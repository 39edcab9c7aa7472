use ytx_provision::errors::ProvisionError;
use ytx_provision::ident::Ident;
use ytx_provision::secrets::PasswordSet;
use ytx_provision::secrets::SecretDocument;
use ytx_provision::secrets::SecretEntry;
use ytx_provision::secrets::check_vault_status;
use ytx_provision::secrets::get_vault_password;
use ytx_provision::secrets::plan_secret_fetch;
use ytx_provision::secrets::postgres_secret_path;
use ytx_provision::secrets::resolve_passwords;
use ytx_provision::secrets::secrets_enabled;
use ytx_provision::secrets::vault_url;
use ytx_provision::secrets::ytx_secret_path;

fn ident(s: &str) -> Ident {
    Ident::new(s.to_string()).unwrap()
}

fn doc(entries: &[(&str, Option<&str>)]) -> SecretDocument {
    SecretDocument {
        entries: entries
            .iter()
            .map(|(k, v)| SecretEntry {
                key: k.to_string(),
                value: v.map(|s| s.to_string()),
            })
            .collect(),
    }
}

fn local() -> PasswordSet {
    PasswordSet {
        superuser: "local_su".to_string(),
        auth_rw: "local_arw".to_string(),
        main_ro: "local_mro".to_string(),
        main_rw: "local_mrw".to_string(),
    }
}

#[test]
fn vault_password_found() {
    let d = doc(&[("postgres", Some("s3cret"))]);
    assert_eq!(get_vault_password(&d, "postgres").unwrap(), "s3cret");
}

#[test]
fn vault_password_missing_key() {
    let d = doc(&[("other", Some("x"))]);
    let e = get_vault_password(&d, "postgres").unwrap_err();
    assert!(matches!(e, ProvisionError::SecretFieldMissing { key } if key == "postgres"));
}

#[test]
fn vault_password_non_string_value() {
    let d = doc(&[("postgres", None)]);
    let e = get_vault_password(&d, "postgres").unwrap_err();
    assert!(matches!(e, ProvisionError::SecretFieldMissing { key } if key == "postgres"));
}

#[test]
fn disabled_resolution_uses_local_passwords_verbatim() {
    let r = resolve_passwords(
        false,
        local(),
        &None,
        &None,
        &ident("postgres"),
        &ident("ytx_auth_readwrite"),
        &ident("ytx_main_readonly"),
        &ident("ytx_main_readwrite"),
    )
    .unwrap();
    assert_eq!(r.superuser, "local_su");
    assert_eq!(r.auth_rw, "local_arw");
    assert_eq!(r.main_ro, "local_mro");
    assert_eq!(r.main_rw, "local_mrw");
}

#[test]
fn enabled_resolution_reads_documents() {
    let su = doc(&[("postgres", Some("su_pw"))]);
    let roles = doc(&[
        ("ytx_auth_readwrite", Some("arw_pw")),
        ("ytx_main_readonly", Some("mro_pw")),
        ("ytx_main_readwrite", Some("mrw_pw")),
    ]);
    let r = resolve_passwords(
        true,
        local(),
        &Some(su),
        &Some(roles),
        &ident("postgres"),
        &ident("ytx_auth_readwrite"),
        &ident("ytx_main_readonly"),
        &ident("ytx_main_readwrite"),
    )
    .unwrap();
    assert_eq!(r.superuser, "su_pw");
    assert_eq!(r.auth_rw, "arw_pw");
    assert_eq!(r.main_ro, "mro_pw");
    assert_eq!(r.main_rw, "mrw_pw");
}

#[test]
fn enabled_resolution_fails_on_first_missing_key() {
    let su = doc(&[("postgres", Some("su_pw"))]);
    let roles = doc(&[
        ("ytx_auth_readwrite", Some("arw_pw")),
        ("ytx_main_readwrite", Some("mrw_pw")),
    ]);
    let e = resolve_passwords(
        true,
        local(),
        &Some(su),
        &Some(roles),
        &ident("postgres"),
        &ident("ytx_auth_readwrite"),
        &ident("ytx_main_readonly"),
        &ident("ytx_main_readwrite"),
    )
    .unwrap_err();
    assert!(matches!(e, ProvisionError::SecretFieldMissing { key } if key == "ytx_main_readonly"));
}

#[test]
fn secrets_enabled_needs_non_empty_token() {
    assert!(!secrets_enabled(&None));
    assert!(!secrets_enabled(&Some(String::new())));
    assert!(secrets_enabled(&Some("vault_token".to_string())));
}

#[test]
fn fetch_plan_only_when_enabled() {
    assert!(plan_secret_fetch(false, "http://127.0.0.1:8200").is_none());
    let p = plan_secret_fetch(true, "http://127.0.0.1:8200").unwrap();
    assert_eq!(
        p.superuser_url,
        "http://127.0.0.1:8200/v1/secret/data/postgres/postgres"
    );
    assert_eq!(p.roles_url, "http://127.0.0.1:8200/v1/secret/data/postgres/ytx");
}

#[test]
fn vault_url_trims_trailing_slashes() {
    assert_eq!(
        vault_url("http://127.0.0.1:8200///", postgres_secret_path()),
        "http://127.0.0.1:8200/v1/secret/data/postgres/postgres"
    );
    assert_eq!(
        vault_url("http://vault:8200", ytx_secret_path()),
        "http://vault:8200/v1/secret/data/postgres/ytx"
    );
}

#[test]
fn vault_status_success_band() {
    assert!(check_vault_status(200).is_ok());
    assert!(check_vault_status(204).is_ok());
    assert!(check_vault_status(299).is_ok());
    let e = check_vault_status(404).unwrap_err();
    assert!(matches!(e, ProvisionError::SecretUnavailable { status } if status == 404));
    assert!(check_vault_status(300).is_err());
    assert!(check_vault_status(199).is_err());
}
