//! Platform administration: changing the status of user accounts.
use crate::audit::AuditEvent;
use crate::auth::Claims;
use crate::rbac::{authorize, permits, Permission};
use crate::status::Status;
use crate::text::{str_eq, to_uppercase, trim, trimmed, uppercase};
use vstd::prelude::*;

verus! {

/// The body of an account status change.
pub struct UpdateUserStatus {
    pub status: String,
}

/// The statuses an administrator may give an account.
pub open spec fn account_status_ok(s: Seq<char>) -> bool {
    s == "ACTIVE"@ || s == "SUSPENDED"@ || s == "BANNED"@
}

/// The outcome of checking an account status change by `actor` on `target`:
/// only administrators may change statuses (else forbidden); the status,
/// trimmed and in upper case, must be `ACTIVE`, `SUSPENDED` or `BANNED`
/// (else a bad request); and administrators cannot change their own status
/// (a conflict).
pub open spec fn status_change_outcome(actor: Claims, target: u128, req: UpdateUserStatus) -> Result<
    Seq<char>,
    Status,
> {
    let s = uppercase(trimmed(req.status@));
    if !permits(actor.role@, Permission::ManageUsers) {
        Err(Status::Forbidden)
    } else if !account_status_ok(s) {
        Err(Status::BadRequest)
    } else if target == actor.sub {
        Err(Status::Conflict)
    } else {
        Ok(s)
    }
}

/// Checks an account status change and gives the status to store.
pub fn validate_status_change(actor: &Claims, target: u128, req: &UpdateUserStatus) -> (r: Result<
    String,
    Status,
>)
    ensures
        match (r, status_change_outcome(*actor, target, *req)) {
            (Ok(s), Ok(t)) => s@ == t,
            (Err(e), Err(f)) => e == f,
            _ => false,
        },
{
    authorize(actor, Permission::ManageUsers)?;
    let status = to_uppercase(trim(req.status.as_str()));
    if !(str_eq(status.as_str(), "ACTIVE") || str_eq(status.as_str(), "SUSPENDED") || str_eq(
        status.as_str(),
        "BANNED",
    )) {
        return Err(Status::BadRequest);
    }
    if target == actor.sub {
        return Err(Status::Conflict);
    }
    Ok(status)
}

/// The audit event recorded when an administrator changes an account's status.
pub fn status_change_event(target: u128) -> (r: AuditEvent)
    ensures
        r.action@ == "USER_STATUS_CHANGED"@,
        r.entity_type@ == "USER"@,
        r.entity_id == Some(target),
{
    AuditEvent { action: "USER_STATUS_CHANGED", entity_type: "USER", entity_id: Some(target) }
}

/// Nobody changes their own account status, and only administrators change
/// any.
pub proof fn lemma_no_self_status_change(actor: Claims, target: u128, req: UpdateUserStatus)
    ensures
        status_change_outcome(actor, target, req) is Ok ==> target != actor.sub && permits(
            actor.role@,
            Permission::ManageUsers,
        ),
{
}

/// A caller who is not an administrator is forbidden. For an administrator,
/// the status given, trimmed and in upper case, must be `ACTIVE`,
/// `SUSPENDED` or `BANNED` (any other is a bad request); with such a status,
/// a change to another user's account is accepted with that status, and a
/// change to the administrator's own account is a conflict.
pub proof fn lemma_account_statuses(actor: Claims, target: u128, req: UpdateUserStatus)
    ensures
        !permits(actor.role@, Permission::ManageUsers) ==> status_change_outcome(actor, target, req)
            == Err::<Seq<char>, Status>(Status::Forbidden),
        permits(actor.role@, Permission::ManageUsers) ==> ({
            let s = uppercase(trimmed(req.status@));
            &&& !(s == "ACTIVE"@ || s == "SUSPENDED"@ || s == "BANNED"@) ==> status_change_outcome(
                actor,
                target,
                req,
            ) == Err::<Seq<char>, Status>(Status::BadRequest)
            &&& (s == "ACTIVE"@ || s == "SUSPENDED"@ || s == "BANNED"@) && target != actor.sub
                ==> status_change_outcome(actor, target, req) == Ok::<Seq<char>, Status>(s)
            &&& (s == "ACTIVE"@ || s == "SUSPENDED"@ || s == "BANNED"@) && target == actor.sub
                ==> status_change_outcome(actor, target, req) == Err::<Seq<char>, Status>(
                Status::Conflict,
            )
        }),
{
}

} // verus!
