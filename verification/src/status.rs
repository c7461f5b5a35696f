//! The HTTP statuses that the handlers answer with.

use vstd::prelude::*;

verus! {

/// One of the three statuses the service ever sends.
#[derive(Debug, Clone, Copy, PartialEq, Eq, Structural)]
pub enum Status {
    /// The request was served; the body holds the result.
    Success,
    /// Sent by the handlers that address one post when the storage gave no row
    /// or failed; the two causes are not told apart.
    NotFound,
    /// Sent by the handlers that list or create when the storage failed.
    InternalServerError,
}

impl Status {
    /// The number that stands for this status on the wire.
    pub open spec fn number(self) -> int {
        match self {
            Status::Success => 200,
            Status::NotFound => 404,
            Status::InternalServerError => 500,
        }
    }

    /// The status code as an integer, as an HTTP library expects it.
    pub fn code(&self) -> (code: u16)
        ensures
            code == self.number(),
    {
        match self {
            Status::Success => 200,
            Status::NotFound => 404,
            Status::InternalServerError => 500,
        }
    }
}

} // verus!
