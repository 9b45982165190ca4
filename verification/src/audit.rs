//! Audit events recorded for administrative actions.
use vstd::prelude::*;

verus! {

/// An audit event: what was done, to which kind of entity, and to which one.
#[derive(Debug, Clone, Copy, PartialEq, Eq)]
pub struct AuditEvent {
    pub action: &'static str,
    pub entity_type: &'static str,
    pub entity_id: Option<u128>,
}

} // verus!
