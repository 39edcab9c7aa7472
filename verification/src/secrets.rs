//! Secret resolution.
//!
//! Role passwords come either verbatim from locally supplied values, or,
//! when secrets are enabled, from two secret documents fetched from the
//! secrets service: one keyed by the superuser role, one keyed by the
//! application role names. The fetch itself is an outbound HTTP GET and
//! is performed by the caller; this module decides whether to fetch, where
//! from, whether the answer counts as success, and how the passwords are
//! extracted.

use vstd::prelude::*;
use vstd::string::StrSliceExecFns;
use vstd::string::StringExecFns;

use crate::errors::ProvisionError;
use crate::ident::Ident;

verus! {

/// One field of a fetched secret document; `value` is `None` when the
/// field is present but not a string.
pub struct SecretEntry {
    pub key: String,
    pub value: Option<String>,
}

/// The key/value fields of one fetched secret document, in document order.
pub struct SecretDocument {
    pub entries: Vec<SecretEntry>,
}

/// One password per role a bootstrap run creates or connects as.
#[derive(Debug)]
pub struct PasswordSet {
    pub superuser: String,
    pub auth_rw: String,
    pub main_ro: String,
    pub main_rw: String,
}

/// The password the first entry named `key` carries, if it carries one.
pub open spec fn lookup_password(entries: Seq<SecretEntry>, key: Seq<char>) -> Option<Seq<char>>
    decreases entries.len(),
{
    if entries.len() == 0 {
        None
    } else if entries[0].key@ == key {
        match entries[0].value {
            Some(v) => Some(v@),
            None => None,
        }
    } else {
        lookup_password(entries.drop_first(), key)
    }
}

/// Extracts the password stored under `key`, failing exactly when the key
/// is absent or its value is not a string.
pub fn get_vault_password(data: &SecretDocument, key: &str) -> (r: Result<String, ProvisionError>)
    ensures
        r is Ok <==> lookup_password(data.entries@, key@) is Some,
        r matches Ok(p) ==> lookup_password(data.entries@, key@) == Some(p@),
        r matches Err(e) ==> e matches ProvisionError::SecretFieldMissing { key: k } && k@ == key@,
{
    let wanted = key.to_string();
    let mut i: usize = 0;
    proof {
        assert(data.entries@.skip(0) =~= data.entries@);
    }
    while i < data.entries.len()
        invariant
            0 <= i <= data.entries@.len(),
            wanted@ == key@,
            lookup_password(data.entries@.skip(i as int), key@) == lookup_password(
                data.entries@,
                key@,
            ),
        decreases data.entries@.len() - i,
    {
        proof {
            assert(data.entries@.skip(i as int)[0] == data.entries@[i as int]);
            assert(data.entries@.skip(i as int).drop_first() =~= data.entries@.skip(i as int + 1));
        }
        if data.entries[i].key == wanted {
            match &data.entries[i].value {
                Some(v) => {
                    return Ok(v.clone());
                },
                None => {
                    return Err(ProvisionError::SecretFieldMissing { key: wanted });
                },
            }
        }
        i = i + 1;
    }
    proof {
        assert(data.entries@.skip(i as int) =~= Seq::<SecretEntry>::empty());
    }
    Err(ProvisionError::SecretFieldMissing { key: wanted })
}

/// The outcome of resolving all four passwords from the two fetched
/// documents: the passwords in configuration order, or the first key that
/// is absent or not a string.
pub open spec fn resolved_passwords(
    superuser_doc: Seq<SecretEntry>,
    roles_doc: Seq<SecretEntry>,
    superuser_role: Seq<char>,
    auth_rw_role: Seq<char>,
    main_ro_role: Seq<char>,
    main_rw_role: Seq<char>,
) -> Result<(Seq<char>, Seq<char>, Seq<char>, Seq<char>), Seq<char>> {
    match lookup_password(superuser_doc, superuser_role) {
        None => Err(superuser_role),
        Some(su) => match lookup_password(roles_doc, auth_rw_role) {
            None => Err(auth_rw_role),
            Some(arw) => match lookup_password(roles_doc, main_ro_role) {
                None => Err(main_ro_role),
                Some(mro) => match lookup_password(roles_doc, main_rw_role) {
                    None => Err(main_rw_role),
                    Some(mrw) => Ok((su, arw, mro, mrw)),
                },
            },
        },
    }
}

/// Resolves the password set.
///
/// With secrets disabled the locally supplied passwords are returned
/// verbatim and the documents are not consulted. With secrets enabled
/// every password comes from the fetched documents, and the first missing
/// or non-string key aborts the resolution.
pub fn resolve_passwords(
    enabled: bool,
    local: PasswordSet,
    superuser_doc: &Option<SecretDocument>,
    roles_doc: &Option<SecretDocument>,
    superuser_role: &Ident,
    auth_rw_role: &Ident,
    main_ro_role: &Ident,
    main_rw_role: &Ident,
) -> (r: Result<PasswordSet, ProvisionError>)
    requires
        enabled ==> (superuser_doc is Some && roles_doc is Some),
    ensures
        !enabled ==> r == Ok::<PasswordSet, ProvisionError>(local),
        enabled ==> match resolved_passwords(
            superuser_doc->0.entries@,
            roles_doc->0.entries@,
            superuser_role@,
            auth_rw_role@,
            main_ro_role@,
            main_rw_role@,
        ) {
            Ok(pw) => r matches Ok(p) && p.superuser@ == pw.0 && p.auth_rw@ == pw.1
                && p.main_ro@ == pw.2 && p.main_rw@ == pw.3,
            Err(k) => r matches Err(e) && e matches ProvisionError::SecretFieldMissing { key }
                && key@ == k,
        },
{
    if !enabled {
        return Ok(local);
    }
    let su_doc = match superuser_doc {
        Some(d) => d,
        None => {
            return Err(ProvisionError::SecretFieldMissing { key: superuser_role.to_text() });
        },
    };
    let r_doc = match roles_doc {
        Some(d) => d,
        None => {
            return Err(ProvisionError::SecretFieldMissing { key: auth_rw_role.to_text() });
        },
    };
    let superuser = get_vault_password(su_doc, superuser_role.as_str())?;
    let auth_rw = get_vault_password(r_doc, auth_rw_role.as_str())?;
    let main_ro = get_vault_password(r_doc, main_ro_role.as_str())?;
    let main_rw = get_vault_password(r_doc, main_rw_role.as_str())?;
    Ok(PasswordSet { superuser, auth_rw, main_ro, main_rw })
}

/// Whether secrets are enabled: a token is supplied and non-empty.
pub fn secrets_enabled(token: &Option<String>) -> (r: bool)
    ensures
        r <==> (token matches Some(t) && t@.len() > 0),
{
    match token {
        Some(t) => t.as_str().unicode_len() > 0,
        None => false,
    }
}

/// `addr` with trailing slashes removed.
pub open spec fn trimmed_addr(s: Seq<char>) -> Seq<char>
    decreases s.len(),
{
    if s.len() > 0 && s[s.len() - 1] == '/' {
        trimmed_addr(s.drop_last())
    } else {
        s
    }
}

/// The URL a secret document is fetched from: the service address without
/// trailing slashes, `/v1/`, and the secret path.
pub open spec fn vault_url_spec(addr: Seq<char>, secret_path: Seq<char>) -> Seq<char> {
    trimmed_addr(addr) + "/v1/"@ + secret_path
}

/// Builds the fetch URL for one secret path.
pub fn vault_url(vault_addr: &str, secret_path: &str) -> (r: String)
    ensures
        r@ == vault_url_spec(vault_addr@, secret_path@),
{
    let n = vault_addr.unicode_len();
    let mut end = n;
    proof {
        assert(vault_addr@.subrange(0, n as int) =~= vault_addr@);
    }
    while end > 0 && vault_addr.get_char(end - 1) == '/'
        invariant
            0 <= end <= n,
            n == vault_addr@.len(),
            trimmed_addr(vault_addr@.subrange(0, end as int)) == trimmed_addr(vault_addr@),
        decreases end,
    {
        proof {
            assert(vault_addr@.subrange(0, end as int).drop_last() =~= vault_addr@.subrange(
                0,
                end as int - 1,
            ));
        }
        end = end - 1;
    }
    let mut r = vault_addr.substring_char(0, end).to_string();
    r.append("/v1/");
    r.append(secret_path);
    r
}

/// The secret path of the superuser password document.
pub fn postgres_secret_path() -> (r: &'static str)
    ensures
        r@ == "secret/data/postgres/postgres"@,
{
    "secret/data/postgres/postgres"
}

/// The secret path of the application role password document.
pub fn ytx_secret_path() -> (r: &'static str)
    ensures
        r@ == "secret/data/postgres/ytx"@,
{
    "secret/data/postgres/ytx"
}

/// The two fetches a run performs when secrets are enabled, in order.
pub struct FetchPlan {
    pub superuser_url: String,
    pub roles_url: String,
}

/// Decides whether the secrets service is consulted at all, and where.
/// `None` means no network call is made and locally supplied passwords are
/// used.
pub fn plan_secret_fetch(enabled: bool, vault_addr: &str) -> (r: Option<FetchPlan>)
    ensures
        r is Some <==> enabled,
        r matches Some(p) ==> p.superuser_url@ == vault_url_spec(
            vault_addr@,
            "secret/data/postgres/postgres"@,
        ) && p.roles_url@ == vault_url_spec(vault_addr@, "secret/data/postgres/ytx"@),
{
    if enabled {
        Some(
            FetchPlan {
                superuser_url: vault_url(vault_addr, postgres_secret_path()),
                roles_url: vault_url(vault_addr, ytx_secret_path()),
            },
        )
    } else {
        None
    }
}

/// Decides whether an HTTP status from the secrets service counts as
/// success; any other status makes the secrets unavailable.
pub fn check_vault_status(status: u16) -> (r: Result<(), ProvisionError>)
    ensures
        r is Ok <==> (200 <= status < 300),
        r matches Err(e) ==> e == (ProvisionError::SecretUnavailable { status }),
{
    if 200 <= status && status < 300 {
        Ok(())
    } else {
        Err(ProvisionError::SecretUnavailable { status })
    }
}

} // verus!
