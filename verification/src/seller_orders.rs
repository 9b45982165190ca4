//! Sellers' view of the orders that hold their products.
use crate::auth::Claims;
use crate::rbac::{authorize, permits, Permission};
use crate::status::Status;
use crate::text::{str_eq, to_uppercase, trim, trimmed, uppercase};
use vstd::prelude::*;

verus! {

/// The body of a fulfilment status change.
pub struct StatusRequest {
    pub status: String,
}

/// The fulfilment statuses a seller may set.
pub open spec fn fulfilment_status_ok(s: Seq<char>) -> bool {
    s == "PROCESSING"@ || s == "SHIPPED"@ || s == "DELIVERED"@ || s == "CANCELLED"@
}

/// The outcome of checking a fulfilment status change: the caller needs the
/// seller-operations permission (else forbidden), and the status, trimmed and
/// in upper case, must be one a seller may set (else a bad request).
pub open spec fn fulfilment_outcome(claims: Claims, req: StatusRequest) -> Result<Seq<char>, Status> {
    let s = uppercase(trimmed(req.status@));
    if !permits(claims.role@, Permission::SellerOperations) {
        Err(Status::Forbidden)
    } else if !fulfilment_status_ok(s) {
        Err(Status::BadRequest)
    } else {
        Ok(s)
    }
}

/// Checks a fulfilment status change and gives the status to store.
pub fn validate_fulfilment_status(claims: &Claims, req: &StatusRequest) -> (r: Result<
    String,
    Status,
>)
    ensures
        match (r, fulfilment_outcome(*claims, *req)) {
            (Ok(s), Ok(t)) => s@ == t,
            (Err(e), Err(f)) => e == f,
            _ => false,
        },
{
    authorize(claims, Permission::SellerOperations)?;
    let status = to_uppercase(trim(req.status.as_str()));
    if !(str_eq(status.as_str(), "PROCESSING") || str_eq(status.as_str(), "SHIPPED") || str_eq(
        status.as_str(),
        "DELIVERED",
    ) || str_eq(status.as_str(), "CANCELLED")) {
        return Err(Status::BadRequest);
    }
    Ok(status)
}

/// A caller without the seller-operations permission is forbidden. For one
/// with it, the status given, trimmed and in upper case, is accepted (and is
/// what is stored) exactly when it is `PROCESSING`, `SHIPPED`, `DELIVERED` or
/// `CANCELLED`; any other status is a bad request.
pub proof fn lemma_fulfilment_statuses(claims: Claims, req: StatusRequest)
    ensures
        !permits(claims.role@, Permission::SellerOperations) ==> fulfilment_outcome(claims, req)
            == Err::<Seq<char>, Status>(Status::Forbidden),
        permits(claims.role@, Permission::SellerOperations) ==> ({
            let s = uppercase(trimmed(req.status@));
            &&& (s == "PROCESSING"@ || s == "SHIPPED"@ || s == "DELIVERED"@ || s == "CANCELLED"@)
                ==> fulfilment_outcome(claims, req) == Ok::<Seq<char>, Status>(s)
            &&& !(s == "PROCESSING"@ || s == "SHIPPED"@ || s == "DELIVERED"@ || s == "CANCELLED"@)
                ==> fulfilment_outcome(claims, req) == Err::<Seq<char>, Status>(Status::BadRequest)
        }),
{
}

} // verus!
