//! Connection-URL rewriting.
//!
//! A bootstrap run opens three connections from one configured base URL:
//! the superuser URL carries the superuser credentials, and the auth and
//! main connections reuse it with the database path swapped. The URL
//! syntax itself is handled by the `url` crate behind trusted wrappers.

use vstd::prelude::*;

use crate::errors::ProvisionError;
use crate::ident::Ident;

verus! {

/// Whether `url::Url::parse` accepts the text.
pub uninterp spec fn url_parseable(url: Seq<char>) -> bool;

/// The serialization of the parsed URL after its path is replaced by
/// `/` followed by `db`.
pub uninterp spec fn rebased_url(url: Seq<char>, db: Seq<char>) -> Seq<char>;

/// Whether the parsed URL takes a username and password: it has a
/// non-empty host and its scheme is not `file`.
pub uninterp spec fn url_accepts_credentials(url: Seq<char>) -> bool;

/// The serialization of the parsed URL after `user` is set as its
/// username and `pw` as its password.
pub uninterp spec fn credentialed_url(url: Seq<char>, user: Seq<char>, pw: Seq<char>) -> Seq<char>;

/// Relies on `url::Url::parse`, `url::Url::set_path` and
/// `url::Url::to_string`: parsing fails on a fixed set of inputs,
/// `set_path` always succeeds, and the final serialization is a function
/// of the input text and the new path.
#[verifier::external_body]
fn rebase_url(url: &str, db: &str) -> (r: Option<String>)
    ensures
        r is Some <==> url_parseable(url@),
        r matches Some(s) ==> s@ == rebased_url(url@, db@),
{
    match url::Url::parse(url) {
        Ok(mut u) => {
            u.set_path(&format!("/{}", db));
            Some(u.to_string())
        }
        Err(_) => None,
    }
}

/// Relies on `url::Url::parse`, `url::Url::set_username`,
/// `url::Url::set_password` and `url::Url::to_string`: the two setters
/// fail exactly when the URL has no non-empty host or its scheme is
/// `file`, which depends on the input text alone, and the final
/// serialization is a function of the inputs.
#[verifier::external_body]
fn embed_credentials(url: &str, user: &str, password: &str) -> (r: Result<String, bool>)
    ensures
        r is Ok <==> (url_parseable(url@) && url_accepts_credentials(url@)),
        r matches Ok(s) ==> s@ == credentialed_url(url@, user@, password@),
{
    match url::Url::parse(url) {
        Ok(mut u) => {
            if u.set_username(user).is_err() {
                return Err(true);
            }
            if u.set_password(Some(password)).is_err() {
                return Err(true);
            }
            Ok(u.into())
        }
        Err(_) => Err(false),
    }
}

/// Rewrites a PostgreSQL connection URL to point at another database by
/// replacing its path.
pub fn replace_postgres_url(postgres_url: &str, new_db: &Ident) -> (r: Result<
    String,
    ProvisionError,
>)
    ensures
        r is Ok <==> url_parseable(postgres_url@),
        r matches Ok(s) ==> s@ == rebased_url(postgres_url@, new_db@),
        r matches Err(e) ==> e is Connection,
{
    match rebase_url(postgres_url, new_db.as_str()) {
        Some(s) => Ok(s),
        None => Err(ProvisionError::Connection { detail: "invalid connection URL".to_string() }),
    }
}

/// Embeds a role name and its password into a base connection URL.
pub fn build_url(base_url: &str, user: &Ident, password: &str) -> (r: Result<
    String,
    ProvisionError,
>)
    ensures
        r is Ok <==> url_parseable(base_url@) && url_accepts_credentials(base_url@),
        r matches Ok(s) ==> s@ == credentialed_url(base_url@, user@, password@),
        r matches Err(e) ==> e is Connection,
{
    match embed_credentials(base_url, user.as_str(), password) {
        Ok(s) => Ok(s),
        Err(parsed) => {
            if parsed {
                Err(ProvisionError::Connection {
                    detail: "URL does not accept credentials".to_string(),
                })
            } else {
                Err(ProvisionError::Connection { detail: "invalid connection URL".to_string() })
            }
        }
    }
}

} // verus!
