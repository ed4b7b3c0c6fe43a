//! Interaction and progression core of a small role-playing game.
//!
//! A player character gathers resources, fights hostile actors, and
//! accumulates skill experience that converts to levels.  Each state
//! machine (gathering, combat, skill leveling, inventory mutation) is a
//! plain function from state, incoming events and elapsed time to new
//! state and outgoing events, driven once per tick by an outer loop.
//! Positions are integer coordinates in thousandths of a world unit and
//! times are integer milliseconds, so that every transition is exact.

pub mod combat;
pub mod coordinator;
pub mod entities;
pub mod gathering;
pub mod inventory;
pub mod messages;
pub mod skills;
pub mod world;

use vstd::prelude::*;

verus! {

/// Every recoverable, local failure the progression core can report.
/// Each one is caught at the call site that issued the action; the
/// acting state machine stays in its prior, consistent state.
#[derive(Clone, Copy, Debug, PartialEq, Eq, Structural)]
pub enum ProgressionError {
    /// A skill identifier from external input named no known skill.
    UnknownSkill,
    /// An item identifier was not found in the item catalog.
    UnknownItem,
    /// A removal named an item with no slot in the inventory.
    ItemNotPresent,
    /// A removal asked for more units than the slot stores.
    InsufficientQuantity,
    /// An attack or interact signal found no candidate within range.
    NoTargetInRange,
    /// An interact signal arrived while a gathering session was active.
    AlreadyGathering,
    /// An attack signal arrived before the attack cooldown elapsed.
    ActionOnCooldown,
}

} // verus!
