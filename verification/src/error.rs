//! The ways a request can fail, and the status each failure is answered with.

use vstd::prelude::*;

verus! {

/// Why a request was not carried out.
#[derive(Debug, Clone, Copy, PartialEq, Eq, Structural)]
pub enum ApiError {
    /// No comment has the id that the request names.
    NotFound,
    /// The password does not belong to the comment.
    Unauthorized,
    /// The row store could not read or write.
    Storage,
    /// Hashing or verifying a password could not be computed.
    Hash,
}

impl ApiError {
    /// The HTTP status of a failure: 404 and 401 for the two refusals, 500
    /// for whatever went wrong inside.
    pub open spec fn status(self) -> u16 {
        match self {
            ApiError::NotFound => 404,
            ApiError::Unauthorized => 401,
            ApiError::Storage => 500,
            ApiError::Hash => 500,
        }
    }

    /// Whether the failure is internal, so that no detail of it is shown.
    pub open spec fn is_internal(self) -> bool {
        self == ApiError::Storage || self == ApiError::Hash
    }

    pub fn status_code(&self) -> (code: u16)
        ensures
            code == self.status(),
    {
        match self {
            ApiError::NotFound => 404,
            ApiError::Unauthorized => 401,
            ApiError::Storage => 500,
            ApiError::Hash => 500,
        }
    }
}

/// Internal failures all answer 500, and only they do: a client cannot tell a
/// storage failure from a hashing failure, but can tell both refusals from
/// either and from each other.
pub proof fn lemma_status_separates_refusals(a: ApiError, b: ApiError)
    ensures
        a.is_internal() <==> a.status() == 500,
        a.status() == b.status() <==> (a == b || (a.is_internal() && b.is_internal())),
{
}

} // verus!
