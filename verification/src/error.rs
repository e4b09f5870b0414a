//! Recoverable faults reported by lookups and by utility arithmetic.

use vstd::prelude::*;

use crate::role::Role;

verus! {

/// A recoverable fault, carrying the offending key where a lookup missed.
///
/// Failed lookups are expected runtime conditions in a running simulation
/// (an entity temporarily outside any practice, a template missing a role
/// name), so they surface as values the caller can act on rather than as
/// process termination. Utility arithmetic that would leave the signed
/// 32-bit range is likewise reported instead of wrapping silently.
#[derive(Clone, Copy, PartialEq, Eq, Debug, Structural)]
pub enum SocialError {
    /// The role has no entry in the queried mapping.
    RoleNotFound { role: Role },
    /// The entity is not bound to any role in the practice.
    EntityNotFound { entity: u32 },
    /// A utility computation left the representable range.
    UtilityOverflow,
}

} // verus!
