//! The optional access gate: a caller-supplied key compared against a
//! configured secret.  A missing key and a mismatched key are distinct
//! failures; the rest of the engine has no notion of authentication.

use vstd::prelude::*;

verus! {

/// Why a request carried no acceptable key.
#[derive(Clone, Copy, PartialEq, Eq, Structural, Debug)]
pub enum AuthError {
    /// No key was supplied at all.
    MissingKey,
    /// A key was supplied but does not match the configured secret.
    InvalidKey,
}

/// A caller's key that matched the configured secret.
#[derive(Debug)]
pub struct ApiKey {
    key: String,
}

impl ApiKey {
    /// The characters of the accepted key.
    pub closed spec fn spec_key(&self) -> Seq<char> {
        self.key@
    }

    /// Admits the supplied key if and only if it matches the expected
    /// secret, telling a missing key apart from a mismatched one.
    pub fn check(provided: Option<String>, expected: &String) -> (r: Result<ApiKey, AuthError>)
        ensures
            match r {
                Ok(k) => {
                    &&& provided is Some
                    &&& provided->0@ == expected@
                    &&& k.spec_key() == expected@
                },
                Err(e) => {
                    &&& (e == AuthError::MissingKey <==> provided is None)
                    &&& (provided is Some ==> e == AuthError::InvalidKey && provided->0@
                        != expected@)
                },
            },
    {
        match provided {
            None => Err(AuthError::MissingKey),
            Some(key) => {
                if key == *expected {
                    Ok(ApiKey { key })
                } else {
                    Err(AuthError::InvalidKey)
                }
            },
        }
    }

    /// The accepted key.
    pub fn key(&self) -> (s: &String)
        ensures
            s@ == self.spec_key(),
    {
        &self.key
    }
}

} // verus!
