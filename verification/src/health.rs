//! The health check.
use crate::status::Status;
use vstd::prelude::*;

verus! {

/// The answer of the health check: `ok` when the database answers a trivial
/// query, otherwise 503 with `database_unavailable`.
pub fn health_response(database_ok: bool) -> (r: (Status, &'static str))
    ensures
        database_ok ==> r.0 == Status::Success && r.1@ == "ok"@,
        !database_ok ==> r.0 == Status::ServiceUnavailable && r.1@ == "database_unavailable"@,
{
    if database_ok {
        (Status::Success, "ok")
    } else {
        (Status::ServiceUnavailable, "database_unavailable")
    }
}

} // verus!
