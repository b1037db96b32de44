//! Session minting: given an identity string, produce the opaque bearer
//! token a guest session carries.
//!
//! The token scheme is deliberately simple — a fixed tag in front of the
//! identity — but it is deterministic and stated exactly, so every caller
//! knows precisely which token a given origin receives.

use vstd::prelude::*;
use vstd::string::StringExecFns;
use crate::errors::AppError;

verus! {

/// The token minted for a given origin: a fixed tag followed by the origin.
pub open spec fn token_of(origin: Seq<char>) -> Seq<char> {
    "jwt:"@ + origin
}

/// An opaque bearer session token bound to the identity it was minted for.
#[derive(Debug)]
pub struct JwtSession {
    pub token: String,
}

/// Mints a session token bound to `identity`. Minting rejects exactly the
/// empty identity: a session must be bound to someone.
pub fn create_jwt(identity: &str) -> (r: Result<JwtSession, AppError>)
    ensures
        identity@.len() == 0 ==> r == Err::<JwtSession, AppError>(AppError::SessionError),
        identity@.len() > 0 ==> (r matches Ok(s) && s.token@ == token_of(identity@)),
{
    if identity.is_empty() {
        return Err(AppError::SessionError);
    }
    let mut token = String::from_str("jwt:");
    token.append(identity);
    Ok(JwtSession { token })
}

} // verus!
