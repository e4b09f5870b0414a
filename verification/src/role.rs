//! Identity tags for the participant slots of a social practice.

use vstd::prelude::*;

verus! {

/// A role in a social practice: an identity tag for a participant slot,
/// used purely as a mapping key and as a display/lookup handle.
///
/// Equality is structural (same variant, same id); values are immutable
/// and cheaply copyable.
#[derive(Clone, Copy, PartialEq, Eq, Hash, Debug, Structural)]
pub enum Role {
    /// A character slot, identified by a numeric id.
    Character { id: u32 },
}

} // verus!
