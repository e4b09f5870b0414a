//! Decision-making building blocks for agents in a social simulation.
//!
//! Conditions decide whether an action is currently allowed, utility rules
//! score how desirable it is, and effects change the world when it is taken.
//! These compose into actions, which practices scope to the entities playing
//! the roles of a reusable scenario template.

use vstd::prelude::*;

pub mod action;
pub mod condition;
pub mod effect;
pub mod error;
pub mod practice;
pub mod role;
pub mod utility;

verus! {

/// The mutable world state shared by evaluation, scoring and execution.
///
/// The engine itself imposes no structure on it; only the additive mock
/// effect interprets it, as a plain counter.
pub type Context = u32;

} // verus!
