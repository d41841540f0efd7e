//! Error taxonomy for the store and for the orchestration layer.

use vstd::prelude::*;

verus! {

/// Field on which a uniqueness constraint was violated, when known.
#[derive(Debug, Clone, Copy, PartialEq, Eq, Structural)]
pub enum UniqueField {
    Id,
    Email,
    Name,
    CredentialId,
    IdHash,
}

/// Error type for store operations.
#[derive(Debug, Clone, Copy, PartialEq, Eq, Structural)]
pub enum DatabaseError {
    /// The given row/resource does not exist.
    NotFound,
    /// A uniqueness constraint was violated. If known, the field for which
    /// the constraint was violated is named.
    UniquenessViolation { field: Option<UniqueField> },
    /// An `update_*()` method was called with an update that contains no
    /// changes.
    EmptyUpdate,
    /// Any other constraint failure, such as creating a row that refers to a
    /// user that does not exist.
    Other,
    /// The given user does not exist.
    UserNotFound,
}

/// Error taxonomy surfaced by the orchestration layer.
///
/// Ceremony errors mean the client must restart the ceremony; bearer errors
/// mean the caller must authenticate again.
#[derive(Debug, Clone, Copy, PartialEq, Eq, Structural)]
pub enum ApiError {
    /// A looked-up resource does not exist.
    NotFound,
    /// No ceremony is stored under the presented handle, or the stored
    /// ceremony is of the wrong kind for the operation.
    InvalidCeremonyHandle,
    /// The ceremony was started too long ago and may no longer be finished.
    CeremonyExpired,
    /// The ceremony library rejected the client's response, or the response
    /// claimed a user that does not own the presented credential.
    VerificationFailed,
    /// The given email is not associated with any user.
    UserNotFound,
    /// No session token was presented, or none that matches a stored session.
    NotLoggedIn,
    /// The session exists but is expired or in a terminal state.
    SessionExpired,
    /// The session's user lacks the capability required for elevation.
    NotAuthorized,
    /// De-elevation was requested on a session that has no parent.
    DowngradeImpossible,
    /// The ceremony library failed outside of response verification, for
    /// example while producing a challenge.
    Webauthn,
    /// A store operation failed.
    Database(DatabaseError),
}

impl ApiError {
    /// Maps a store error as the orchestration layer surfaces it: a missing
    /// row becomes `NotFound`, everything else is passed through.
    pub fn from_database(e: DatabaseError) -> (r: ApiError)
        ensures
            r == ApiError::spec_from_database(e),
    {
        match e {
            DatabaseError::NotFound => ApiError::NotFound,
            _ => ApiError::Database(e),
        }
    }

    /// What `from_database` returns.
    pub open spec fn spec_from_database(e: DatabaseError) -> ApiError {
        match e {
            DatabaseError::NotFound => ApiError::NotFound,
            _ => ApiError::Database(e),
        }
    }
}

} // verus!
