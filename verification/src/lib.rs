//! Connection-management core of a multi-backend database administration
//! service.
//!
//! The crate tracks which user owns which live data-source connection and
//! exposes a uniform operation set over heterogeneous backends: a polymorphic
//! connection contract ([`connection::BasableConnection`]), a handle that
//! arbitrates exclusive access to one driver instance
//! ([`connection::SharedConnection`]), and the central registry
//! ([`foundation::Basable`]) that creates, indexes and hands out connections
//! and users per user id.

pub mod auth;
pub mod config;
pub mod connection;
pub mod errors;
pub mod foundation;
pub mod strmap;
pub mod table;
pub mod user;
