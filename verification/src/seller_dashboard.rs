//! The seller dashboard.
use crate::rbac::{is_staff_role, seller_allowed};
use crate::status::Status;
use vstd::prelude::*;

verus! {

/// Only staff roles (seller, admin, super admin) see a seller dashboard;
/// anyone else is forbidden.
pub fn dashboard_access(role: &str) -> (r: Result<(), Status>)
    ensures
        r is Ok <==> is_staff_role(role@),
        r matches Err(e) ==> e == Status::Forbidden,
{
    if seller_allowed(role) {
        Ok(())
    } else {
        Err(Status::Forbidden)
    }
}

} // verus!
