//! The statuses the service answers with; every answer has an empty body.
use vstd::prelude::*;

verus! {

/// An HTTP status the service answers with.
#[derive(Clone, Copy, Debug, PartialEq, Eq, Structural)]
pub enum ResponseStatus {
    Success,
    BadRequest,
    InternalServerError,
}

/// The numeric code of a status.
pub open spec fn status_code(s: ResponseStatus) -> u16 {
    match s {
        ResponseStatus::Success => 200,
        ResponseStatus::BadRequest => 400,
        ResponseStatus::InternalServerError => 500,
    }
}

impl ResponseStatus {
    /// The numeric code of this status.
    pub fn code(&self) -> (r: u16)
        ensures
            r == status_code(*self),
    {
        match self {
            ResponseStatus::Success => 200,
            ResponseStatus::BadRequest => 400,
            ResponseStatus::InternalServerError => 500,
        }
    }
}

} // verus!
