//! The error taxonomy of the cache layer and its callers.

use vstd::prelude::*;

verus! {

/// Every failure the library distinguishes.
///
/// The read path treats cache failures as soft (stale data is preferred to
/// a failed read); the write path propagates them, because a mutation whose
/// counter update is lost would corrupt the derived counter permanently.
#[derive(Clone, Copy, Debug, PartialEq, Eq, Structural)]
pub enum MyError {
    /// A lookup found nothing.
    NotFound,
    /// A token could not be created.
    JWTTokenCreationError,
    /// A generic failed-result response.
    FailResultError,
    /// A token could not be validated.
    JWTTokenError,
    /// The request carried no authorization header.
    AuthorizationNotFound,
    /// A reply could not be read as the expected type, or the key was absent
    /// where a value was required.
    ParseError,
    /// The lock guarding the id generator was poisoned.
    PoisonError,
    /// The command channel to the cache is unreachable.
    TransportError,
    /// The cache itself rejected or errored on a command.
    StoreError,
    /// A mutation was asked to add a membership that already exists.
    DuplicateAction,
    /// A mutation was asked to remove a membership that does not exist.
    NotMember,
    /// A soft, user-facing failure carrying an application code.
    OkError(i32),
}

impl MyError {
    /// A soft error with the given application code.
    pub fn code(code: i32) -> (r: Self)
        ensures
            r == MyError::OkError(code),
    {
        MyError::OkError(code)
    }
}

/// The body of a soft-error response: the application code alone.
#[derive(Clone, Copy, Debug, PartialEq, Eq, Structural)]
pub struct ErrorResponse {
    pub code: i32,
}

impl ErrorResponse {
    /// Wraps an application code for the response body.
    pub fn new(code: &i32) -> (r: Self)
        ensures
            r.code == *code,
    {
        Self { code: *code }
    }
}

} // verus!
