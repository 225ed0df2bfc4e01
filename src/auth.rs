//! Credential extraction from an `Authorization` header value.
use vstd::prelude::*;
use vstd::string::StrSliceExecFns;
use vstd::string::StringExecFns;

verus! {

/// An opaque bearer credential, taken verbatim from the request header.
pub struct AuthToken(pub String);

/// Why no credential could be taken from a request.
#[derive(PartialEq, Eq, Structural, Debug, Clone, Copy)]
pub enum CredentialError {
    /// The header is absent or does not use the bearer scheme.
    MissingCredential,
}

/// The scheme prefix of a bearer `Authorization` header: `"Bearer "`.
pub open spec fn bearer_scheme() -> Seq<char> {
    seq!['B', 'e', 'a', 'r', 'e', 'r', ' ']
}

/// Whether a header value starts with the bearer scheme prefix.
pub open spec fn is_bearer(h: Seq<char>) -> bool {
    h.len() >= bearer_scheme().len() && h.subrange(0, bearer_scheme().len() as int)
        == bearer_scheme()
}

/// The credential carried by a header value: everything after the scheme
/// prefix, unchanged.
pub open spec fn bearer_credential(h: Seq<char>) -> Seq<char> {
    h.subrange(bearer_scheme().len() as int, h.len() as int)
}

/// The text form of a token: `"AuthToken:"` followed by the credential.
pub open spec fn token_text(t: Seq<char>) -> Seq<char> {
    seq!['A', 'u', 't', 'h', 'T', 'o', 'k', 'e', 'n', ':'] + t
}

fn starts_with_bearer(s: &str) -> (r: bool)
    ensures
        r == is_bearer(s@),
{
    let n = s.unicode_len();
    if n < 7 {
        return false;
    }
    let ok = s.get_char(0) == 'B' && s.get_char(1) == 'e' && s.get_char(2) == 'a'
        && s.get_char(3) == 'r' && s.get_char(4) == 'e' && s.get_char(5) == 'r'
        && s.get_char(6) == ' ';
    if ok {
        assert(s@.subrange(0, 7) =~= bearer_scheme());
    }
    ok
}

impl AuthToken {
    /// Takes the credential out of an `Authorization` header value.
    ///
    /// A value that starts with `"Bearer "` yields the rest of it, with no
    /// normalisation; an absent header or any other scheme yields
    /// `MissingCredential`.
    pub fn try_from(header: Option<&str>) -> (r: Result<AuthToken, CredentialError>)
        ensures
            match header {
                Some(h) => if is_bearer(h@) {
                    r matches Ok(t) && t.0@ == bearer_credential(h@)
                } else {
                    r == Err::<AuthToken, CredentialError>(CredentialError::MissingCredential)
                },
                None => r == Err::<AuthToken, CredentialError>(
                    CredentialError::MissingCredential,
                ),
            },
    {
        match header {
            Some(h) => {
                if starts_with_bearer(h) {
                    let n = h.unicode_len();
                    let rest = h.substring_char(7, n);
                    Ok(AuthToken(rest.to_owned()))
                } else {
                    Err(CredentialError::MissingCredential)
                }
            },
            None => Err(CredentialError::MissingCredential),
        }
    }

    /// The token as text, `"AuthToken:<credential>"`.
    pub fn fmt(&self) -> (r: String)
        ensures
            r@ == token_text(self.0@),
    {
        let prefix = String::from_str("AuthToken:");
        proof {
            reveal_strlit("AuthToken:");
        }
        let r = prefix.concat(self.0.as_str());
        assert(r@ =~= token_text(self.0@));
        r
    }
}

} // verus!
