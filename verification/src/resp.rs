//! The plain success/failure response body handlers return.

use vstd::prelude::*;

verus! {

/// A response that carries only whether the operation succeeded.
#[derive(Clone, Copy, Debug, PartialEq, Eq, Structural)]
pub struct ResultResponse {
    succ: bool,
}

impl ResultResponse {
    /// Whether this response reports success.
    pub closed spec fn spec_succ(&self) -> bool {
        self.succ
    }

    /// A response with the given outcome.
    pub fn new(val: bool) -> (r: Self)
        ensures
            r.spec_succ() == val,
    {
        ResultResponse { succ: val }
    }

    /// The success response.
    pub fn succ() -> (r: Self)
        ensures
            r.spec_succ(),
    {
        ResultResponse::new(true)
    }

    /// The failure response.
    pub fn fail() -> (r: Self)
        ensures
            !r.spec_succ(),
    {
        ResultResponse::new(false)
    }

    /// Reads the outcome back out, for serialization at the boundary.
    pub fn is_succ(&self) -> (r: bool)
        ensures
            r == self.spec_succ(),
    {
        self.succ
    }
}

} // verus!
