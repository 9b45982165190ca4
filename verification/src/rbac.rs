//! Role-based access control.
use crate::auth::Claims;
use crate::status::Status;
use crate::text::str_eq;
use vstd::prelude::*;

verus! {

/// An operation that only some roles may perform.
#[derive(Debug, Clone, Copy, PartialEq, Eq, Structural)]
pub enum Permission {
    ManageProducts,
    SellerOperations,
    ViewSellerAnalytics,
    ManageUsers,
}

/// The roles that run a shop or the platform: seller, admin and super admin.
pub open spec fn is_staff_role(role: Seq<char>) -> bool {
    role == "SELLER"@ || role == "ADMIN"@ || role == "SUPER_ADMIN"@
}

/// The roles that administer the platform: admin and super admin.
pub open spec fn is_admin_role(role: Seq<char>) -> bool {
    role == "ADMIN"@ || role == "SUPER_ADMIN"@
}

/// Which roles hold which permission: user management belongs to the
/// administrators, every other permission to all staff roles.
pub open spec fn permits(role: Seq<char>, permission: Permission) -> bool {
    match permission {
        Permission::ManageUsers => is_admin_role(role),
        _ => is_staff_role(role),
    }
}

/// Whether `role` holds `permission`.
pub fn has_permission(role: &str, permission: Permission) -> (r: bool)
    ensures
        r == permits(role@, permission),
{
    let admin = str_eq(role, "ADMIN") || str_eq(role, "SUPER_ADMIN");
    match permission {
        Permission::ManageUsers => admin,
        _ => str_eq(role, "SELLER") || admin,
    }
}

/// Whether `role` may manage products (seller, admin or super admin).
pub fn seller_allowed(role: &str) -> (r: bool)
    ensures
        r == is_staff_role(role@),
{
    str_eq(role, "SELLER") || str_eq(role, "ADMIN") || str_eq(role, "SUPER_ADMIN")
}

/// Lets the request through when the caller's role holds `permission`;
/// refuses it as forbidden otherwise.
pub fn authorize(claims: &Claims, permission: Permission) -> (r: Result<(), Status>)
    ensures
        r is Ok <==> permits(claims.role@, permission),
        r matches Err(e) ==> e == Status::Forbidden,
{
    if has_permission(claims.role.as_str(), permission) {
        Ok(())
    } else {
        Err(Status::Forbidden)
    }
}

/// Every permission requires a staff role: no other role, such as a buyer,
/// holds any permission.
pub proof fn lemma_permissions_require_staff(role: Seq<char>, permission: Permission)
    ensures
        permits(role, permission) ==> is_staff_role(role),
{
}

/// The administrators hold every permission.
pub proof fn lemma_admins_hold_every_permission(role: Seq<char>, permission: Permission)
    requires
        is_admin_role(role),
    ensures
        permits(role, permission),
{
}

/// A seller holds every permission except user management.
pub proof fn lemma_seller_permissions(permission: Permission)
    ensures
        permits("SELLER"@, permission) <==> permission != Permission::ManageUsers,
{
    reveal_strlit("SELLER");
    reveal_strlit("ADMIN");
    reveal_strlit("SUPER_ADMIN");
    assert("SELLER"@.len() != "ADMIN"@.len());
    assert("SELLER"@.len() != "SUPER_ADMIN"@.len());
}

/// Product management, seller operations and seller analytics are held by
/// exactly the same roles, which are the roles `seller_allowed` admits.
pub proof fn lemma_seller_permissions_coincide(role: Seq<char>)
    ensures
        permits(role, Permission::ManageProducts) == is_staff_role(role),
        permits(role, Permission::SellerOperations) == is_staff_role(role),
        permits(role, Permission::ViewSellerAnalytics) == is_staff_role(role),
{
}

/// Who holds what, role by role: `ADMIN` and `SUPER_ADMIN` hold every
/// permission, `SELLER` every permission but user management, and every other
/// role none; and the staff roles are exactly `SELLER`, `ADMIN` and
/// `SUPER_ADMIN`.
pub proof fn lemma_permission_table(role: Seq<char>, permission: Permission)
    ensures
        permits(role, permission) <==> (role == "ADMIN"@ || role == "SUPER_ADMIN"@ || (role
            == "SELLER"@ && permission != Permission::ManageUsers)),
        is_staff_role(role) <==> (role == "SELLER"@ || role == "ADMIN"@ || role
            == "SUPER_ADMIN"@),
{
    reveal_strlit("SELLER");
    reveal_strlit("ADMIN");
    reveal_strlit("SUPER_ADMIN");
    assert("SELLER"@.len() != "ADMIN"@.len());
    assert("SELLER"@.len() != "SUPER_ADMIN"@.len());
}

} // verus!
