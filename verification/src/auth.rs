//! The credential bridge, as far as it computes.
//!
//! A bearer token comes from a callback of the host, which may be slow and
//! may fail. Calling it is the caller's business; this module says what the
//! broker handshake gets for what the callback gave.

use vstd::prelude::*;
use vstd::string::*;
use vstd::utf8::encode_utf8;

verus! {

/// Why no credential could be had.
#[derive(Clone, Debug, PartialEq, Eq)]
pub enum AuthenticationError {
    /// The failure stands; the bridge itself never asks again.
    Custom(String),
    /// The failure may pass if the request is made again.
    Retriable(String),
}

impl AuthenticationError {
    /// The text carried by the error.
    pub open spec fn reason(self) -> Seq<char> {
        match self {
            AuthenticationError::Custom(m) => m@,
            AuthenticationError::Retriable(m) => m@,
        }
    }
}

/// The bytes that the handshake carries for a token: its UTF-8 encoding.
pub open spec fn token_bytes(token: Seq<char>) -> Seq<u8> {
    encode_utf8(token)
}

/// The name by which the broker handshake selects the token scheme.
pub open spec fn method_name() -> Seq<char> {
    "token"@
}

/// The library's side of the credential bridge. It holds no state: every
/// request stands alone, so that concurrent requests cannot receive one
/// another's token.
#[derive(Clone, Copy, Debug, PartialEq, Eq)]
pub struct AuthTokenProvider {}

impl AuthTokenProvider {
    /// A bridge.
    pub fn new() -> (p: AuthTokenProvider) {
        AuthTokenProvider {  }
    }

    /// The name of the authentication scheme.
    pub fn auth_method_name(&self) -> (name: String)
        ensures
            name@ == method_name(),
    {
        String::from_str("token")
    }

    /// Prepares the bridge. There is nothing to prepare; it always succeeds.
    pub fn initialize(&mut self) -> (r: Result<(), AuthenticationError>)
        ensures
            r is Ok,
            *final(self) == *old(self),
    {
        Ok(())
    }

    /// The credential for one handshake, from what one call of the callback
    /// gave: the token's bytes where it resolved to a token, an error with
    /// the given reason where it did not. A failure is final for this
    /// request; whoever connects decides whether to ask again.
    pub fn auth_data(&mut self, fetched: Result<String, String>) -> (r: Result<
        Vec<u8>,
        AuthenticationError,
    >)
        ensures
            *final(self) == *old(self),
            match fetched {
                Ok(token) => r matches Ok(bytes) && bytes@ == token_bytes(token@),
                Err(why) => r matches Err(e) && e is Custom && e.reason() == why@,
            },
    {
        match fetched {
            Ok(token) => Ok(token.as_str().as_bytes_vec()),
            Err(why) => Err(AuthenticationError::Custom(why)),
        }
    }
}

} // verus!
