//! The liveness probe.
use vstd::prelude::*;
use crate::routes::status::ResponseStatus;

verus! {

/// The answer to a health check: always `200 OK`, with an empty body.
pub fn healthz() -> (r: ResponseStatus)
    ensures
        r == ResponseStatus::Success,
{
    ResponseStatus::Success
}

} // verus!
