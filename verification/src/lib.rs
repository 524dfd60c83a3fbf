//! Credential verification and session management.
//!
//! The library verifies user credentials against stored password hashes,
//! tracks server-side sessions bound to authenticated identities with a
//! sliding expiry, and gates protected operations on a live authenticated
//! session.

use vstd::prelude::*;

pub mod backend;
pub mod client;
pub mod gate;
pub mod handlers;
pub mod hashing;
pub mod items;
pub mod session;
pub mod table;

verus! {

/// Why an operation was refused.
#[derive(Debug, Clone, Copy, PartialEq, Eq, Structural)]
pub enum AuthError {
    /// No session, an unknown token, or an expired session.
    NotAuthenticated,
    /// A login attempt failed; unknown user and wrong password are
    /// deliberately not distinguished.
    InvalidCredentials,
}

} // verus!
