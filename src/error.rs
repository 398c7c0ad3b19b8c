use vstd::prelude::*;

verus! {

/// Outcomes of the authentication subsystem other than success.
#[derive(Debug, Clone, Copy, PartialEq, Eq, Structural)]
pub enum AuthError {
    /// Malformed input, such as an empty username.
    ValidationError,
    /// A record with that username already exists.
    UsernameTaken,
    /// No record has that username.
    UnknownUsername,
    /// The password does not match the stored digest.
    InvalidCredentials,
    /// The acting identity may not perform the operation.
    Forbidden,
    /// The request carries no authenticated identity.
    Unauthorized,
    /// The account that the operation targets does not exist.
    NotFound,
    /// A user id names no record (for instance a session left dangling by a deletion).
    UnknownUser,
    /// The session id names no session entry.
    SessionNotFound,
    /// The store cannot take the operation (it has run out of fresh ids).
    StoreUnavailable,
    /// The password hasher could not produce a digest.
    HashFailed,
}

} // verus!
