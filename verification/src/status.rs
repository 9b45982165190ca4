use vstd::prelude::*;

verus! {

/// The HTTP outcome of a request, as the handlers report it.
#[derive(Debug, Clone, Copy, PartialEq, Eq, Structural)]
pub enum Status {
    Success,
    Created,
    BadRequest,
    Unauthorized,
    Forbidden,
    NotFound,
    Conflict,
    InternalServerError,
    NotImplemented,
    BadGateway,
    ServiceUnavailable,
}

/// The numeric HTTP status code of each outcome.
pub open spec fn status_code(s: Status) -> u16 {
    match s {
        Status::Success => 200,
        Status::Created => 201,
        Status::BadRequest => 400,
        Status::Unauthorized => 401,
        Status::Forbidden => 403,
        Status::NotFound => 404,
        Status::Conflict => 409,
        Status::InternalServerError => 500,
        Status::NotImplemented => 501,
        Status::BadGateway => 502,
        Status::ServiceUnavailable => 503,
    }
}

impl Status {
    /// The numeric HTTP status code.
    pub fn code(&self) -> (r: u16)
        ensures
            r == status_code(*self),
    {
        match self {
            Status::Success => 200,
            Status::Created => 201,
            Status::BadRequest => 400,
            Status::Unauthorized => 401,
            Status::Forbidden => 403,
            Status::NotFound => 404,
            Status::Conflict => 409,
            Status::InternalServerError => 500,
            Status::NotImplemented => 501,
            Status::BadGateway => 502,
            Status::ServiceUnavailable => 503,
        }
    }
}

/// A record that the request needs and that does not exist (or is not the
/// caller's) is answered as not found.
pub fn require_found<T>(record: Option<T>) -> (r: Result<T, Status>)
    ensures
        r is Ok <==> record is Some,
        r matches Ok(v) ==> record == Some(v),
        r matches Err(e) ==> e == Status::NotFound,
{
    match record {
        Some(v) => Ok(v),
        None => Err(Status::NotFound),
    }
}

/// Each outcome is answered with its standard HTTP code, and no two outcomes
/// share a code.
pub proof fn lemma_status_codes(a: Status, b: Status)
    ensures
        status_code(Status::Success) == 200 && status_code(Status::Created) == 201,
        status_code(Status::BadRequest) == 400 && status_code(Status::Unauthorized) == 401,
        status_code(Status::Forbidden) == 403 && status_code(Status::NotFound) == 404,
        status_code(Status::Conflict) == 409 && status_code(Status::InternalServerError) == 500,
        status_code(Status::NotImplemented) == 501 && status_code(Status::BadGateway) == 502,
        status_code(Status::ServiceUnavailable) == 503,
        status_code(a) == status_code(b) ==> a == b,
{
}

} // verus!
