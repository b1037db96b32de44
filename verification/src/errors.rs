//! Error taxonomy of the connection core.
//!
//! Driver failures are expected operational events, not programmer errors,
//! so every fallible operation returns one of these typed values and callers
//! can tell a bad configuration from a missing table or a missing user.

use vstd::prelude::*;

verus! {

/// The failures this core reports.
#[derive(Clone, Copy, Debug, PartialEq, Eq, Structural)]
pub enum AppError {
    /// The requested source type or variant has no driver.
    UnsupportedSource,
    /// The backend cannot be reached or the configuration is malformed
    /// for the chosen backend, detected when a driver is constructed.
    ConnectionError,
    /// An operation on an established connection failed because the
    /// underlying connection is no longer valid.
    IntrospectionError,
    /// A table configuration was addressed to a table this connection
    /// does not have.
    TableNotFound,
    /// An operation required a registered user that is absent.
    UserNotFound,
    /// The session-minting collaborator rejected the identity.
    SessionError,
}

impl AppError {
    /// A short, stable description of the error.
    pub fn message(&self) -> (r: &'static str)
        ensures
            r@.len() > 0,
    {
        let m = match self {
            AppError::UnsupportedSource => "unsupported source type",
            AppError::ConnectionError => "unable to establish connection",
            AppError::IntrospectionError => "connection is no longer valid",
            AppError::TableNotFound => "no such table on this connection",
            AppError::UserNotFound => "no such user",
            AppError::SessionError => "unable to mint a session",
        };
        proof {
            reveal_strlit("unsupported source type");
            reveal_strlit("unable to establish connection");
            reveal_strlit("connection is no longer valid");
            reveal_strlit("no such table on this connection");
            reveal_strlit("no such user");
            reveal_strlit("unable to mint a session");
        }
        m
    }
}

} // verus!
