//! Validated SQL identifiers.
//!
//! Database, role and workspace names are interpolated directly into DDL
//! text, so the provisioner only ever accepts a name through [`Ident`],
//! which cannot be constructed from an unchecked string.

use vstd::prelude::*;
use vstd::string::StrSliceExecFns;
use vstd::string::StringExecFns;

use crate::errors::ProvisionError;

verus! {

/// A lowercase ASCII letter.
pub open spec fn is_lower(c: char) -> bool {
    'a' <= c && c <= 'z'
}

/// A character allowed anywhere in an identifier: lowercase letter, digit,
/// or underscore.
pub open spec fn is_ident_char(c: char) -> bool {
    is_lower(c) || ('0' <= c && c <= '9') || c == '_'
}

/// A valid SQL identifier: one to sixty-three characters, starting with a
/// lowercase letter, all characters lowercase letters, digits or
/// underscores.
pub open spec fn valid_ident(s: Seq<char>) -> bool {
    &&& 1 <= s.len() <= 63
    &&& is_lower(s[0])
    &&& forall|i: int| 0 <= i < s.len() ==> is_ident_char(#[trigger] s[i])
}

/// Decides [`valid_ident`] for a string slice.
pub fn check_ident(s: &str) -> (r: bool)
    ensures
        r == valid_ident(s@),
{
    let n = s.unicode_len();
    if n == 0 || n > 63 {
        return false;
    }
    let first = s.get_char(0);
    if !('a' <= first && first <= 'z') {
        return false;
    }
    let mut i: usize = 1;
    while i < n
        invariant
            1 <= i <= n,
            n == s@.len(),
            n <= 63,
            is_lower(s@[0]),
            forall|j: int| 0 <= j < i ==> is_ident_char(#[trigger] s@[j]),
        decreases n - i,
    {
        let c = s.get_char(i);
        if !(('a' <= c && c <= 'z') || ('0' <= c && c <= '9') || c == '_') {
            return false;
        }
        i = i + 1;
    }
    true
}

/// A name that has passed identifier validation.
///
/// The only way to obtain one is [`Ident::new`], so holding an `Ident` is
/// proof that the name is safe to interpolate into DDL text.
#[derive(Debug)]
pub struct Ident {
    name: String,
}

impl View for Ident {
    type V = Seq<char>;

    closed spec fn view(&self) -> Seq<char> {
        self.name@
    }
}

impl Ident {
    #[verifier::type_invariant]
    spec fn inv(self) -> bool {
        valid_ident(self.name@)
    }

    /// Validates `name` and wraps it; rejects exactly the strings that are
    /// not valid identifiers.
    pub fn new(name: String) -> (r: Result<Ident, ProvisionError>)
        ensures
            r is Ok <==> valid_ident(name@),
            r matches Ok(id) ==> id@ == name@,
            r matches Err(e) ==> e matches ProvisionError::InvalidIdentifier { value }
                && value@ == name@,
    {
        if check_ident(name.as_str()) {
            Ok(Ident { name })
        } else {
            Err(ProvisionError::InvalidIdentifier { value: name })
        }
    }

    /// The name as a string slice; every `Ident` in existence satisfies
    /// [`valid_ident`].
    pub fn as_str(&self) -> (r: &str)
        ensures
            r@ == self@,
            valid_ident(self@),
    {
        proof {
            use_type_invariant(self);
        }
        self.name.as_str()
    }

    /// A copy of this identifier.
    pub fn dup(&self) -> (r: Ident)
        ensures
            r@ == self@,
            valid_ident(self@),
    {
        proof {
            use_type_invariant(self);
        }
        Ident { name: self.name.clone() }
    }

    /// The name as an owned `String`.
    pub fn to_text(&self) -> (r: String)
        ensures
            r@ == self@,
            valid_ident(self@),
    {
        proof {
            use_type_invariant(self);
        }
        self.name.clone()
    }
}

/// The name a configuration entry resolves to: the supplied value when one
/// is present, the default otherwise.
pub open spec fn chosen_name(value: Option<String>, default: Seq<char>) -> Seq<char> {
    match value {
        Some(v) => v@,
        None => default,
    }
}

/// Picks the supplied value over the default, then validates it as an
/// identifier. A supplied empty string is used (and rejected), not replaced
/// by the default.
pub fn resolve_name(value: Option<String>, default: &str) -> (r: Result<Ident, ProvisionError>)
    ensures
        r is Ok <==> valid_ident(chosen_name(value, default@)),
        r matches Ok(id) ==> id@ == chosen_name(value, default@),
        r matches Err(e) ==> e matches ProvisionError::InvalidIdentifier { value: v }
            && v@ == chosen_name(value, default@),
{
    let chosen: String = match value {
        Some(v) => v,
        None => default.to_string(),
    };
    Ident::new(chosen)
}

} // verus!
