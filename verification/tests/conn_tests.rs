use ytx_provision::conn::build_url;
use ytx_provision::conn::replace_postgres_url;
use ytx_provision::errors::ProvisionError;
use ytx_provision::ident::Ident;

fn ident(s: &str) -> Ident {
    Ident::new(s.to_string()).unwrap()
}

#[test]
fn replace_postgres_url_swaps_database() {
    let r = replace_postgres_url("postgres://localhost:5432/postgres", &ident("ytx_auth"));
    assert_eq!(r.unwrap(), "postgres://localhost:5432/ytx_auth");
}

#[test]
fn replace_postgres_url_keeps_credentials() {
    let r = replace_postgres_url(
        "postgres://postgres:pw@localhost:5432/postgres",
        &ident("ytx_main"),
    );
    assert_eq!(r.unwrap(), "postgres://postgres:pw@localhost:5432/ytx_main");
}

#[test]
fn replace_postgres_url_rejects_unparseable_text() {
    let e = replace_postgres_url("not a url", &ident("ytx_main")).unwrap_err();
    assert!(matches!(e, ProvisionError::Connection { .. }));
}

#[test]
fn build_url_embeds_credentials() {
    let r = build_url("postgres://localhost:5432/postgres", &ident("postgres"), "pw");
    assert_eq!(r.unwrap(), "postgres://postgres:pw@localhost:5432/postgres");
}

#[test]
fn build_url_rejects_unparseable_text() {
    let e = build_url("::::", &ident("postgres"), "pw").unwrap_err();
    assert!(matches!(e, ProvisionError::Connection { .. }));
}

#[test]
fn build_url_rejects_hostless_url() {
    let e = build_url("mailto:admin@example.com", &ident("postgres"), "pw").unwrap_err();
    assert!(matches!(e, ProvisionError::Connection { .. }));
}
