//! Credential-ceremony orchestration and session-lifecycle engine for a
//! passkey-based identity provider.
//!
//! The crate models the credential store as explicit in-memory state and
//! verifies the state machinery around it: ceremony expiry, atomic
//! registration with a compensating delete, one-way session tokens, and the
//! elevate / de-elevate session protocol.

use vstd::prelude::*;

pub mod authentication;
pub mod bytes;
pub mod ceremony;
pub mod crypto;
pub mod errors;
pub mod laws;
pub mod models;
pub mod registration;
pub mod session;
pub mod store;

verus! {

/// Seconds a registration or authentication ceremony stays usable.
pub const CEREMONY_TTL_SECONDS: i64 = 300;

/// Seconds from minting until a session expires.
pub const SESSION_TTL_SECONDS: i64 = 86400;

} // verus!
