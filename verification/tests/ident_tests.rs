use ytx_provision::errors::ProvisionError;
use ytx_provision::ident::Ident;
use ytx_provision::ident::check_ident;
use ytx_provision::ident::resolve_name;

#[test]
fn accepts_ordinary_names() {
    assert!(check_ident("ytx_main"));
    assert!(check_ident("a"));
    assert!(check_ident("a1_2b"));
    assert!(check_ident(&"a".repeat(63)));
}

#[test]
fn rejects_empty_name() {
    assert!(!check_ident(""));
    let e = Ident::new(String::new()).unwrap_err();
    assert!(matches!(e, ProvisionError::InvalidIdentifier { value } if value.is_empty()));
}

#[test]
fn rejects_too_long_name() {
    assert!(!check_ident(&"a".repeat(64)));
}

#[test]
fn rejects_bad_first_character() {
    assert!(!check_ident("9abc"));
    assert!(!check_ident("_abc"));
    assert!(!check_ident("Abc"));
}

#[test]
fn rejects_bad_characters() {
    assert!(!check_ident("abc-def"));
    assert!(!check_ident("abc def"));
    assert!(!check_ident("abcDef"));
    assert!(!check_ident("abc;drop"));
}

#[test]
fn ident_round_trip() {
    let id = Ident::new("ytx_auth".to_string()).unwrap();
    assert_eq!(id.as_str(), "ytx_auth");
    assert_eq!(id.dup().as_str(), "ytx_auth");
    assert_eq!(id.to_text(), "ytx_auth".to_string());
}

#[test]
fn resolve_name_uses_default_when_absent() {
    let id = resolve_name(None, "ytx_workspace").unwrap();
    assert_eq!(id.as_str(), "ytx_workspace");
}

#[test]
fn resolve_name_prefers_supplied_value() {
    let id = resolve_name(Some("custom_db".to_string()), "ytx_main").unwrap();
    assert_eq!(id.as_str(), "custom_db");
}

#[test]
fn resolve_name_rejects_supplied_empty_value() {
    let e = resolve_name(Some(String::new()), "ytx_main").unwrap_err();
    assert!(matches!(e, ProvisionError::InvalidIdentifier { value } if value.is_empty()));
}
