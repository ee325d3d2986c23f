//! The task data model: what a unit is currently doing, the commands the core
//! hands the host, and the outcome codes the host hands back.
//!
//! Every object reference inside a task is a bare identity that must be
//! re-resolved against the current world snapshot each tick; a reference that
//! no longer resolves silently cancels the task.

use vstd::prelude::*;

verus! {

/// The kind of a structure, as far as the core distinguishes them.
#[derive(Clone, Copy, PartialEq, Eq, Structural, Debug)]
pub enum StructureKind {
    Spawn,
    Extension,
    Tower,
    Storage,
    Container,
    Controller,
    Other,
}

/// A structure kind that can receive an energy deposit.
pub open spec fn is_deposit_kind(k: StructureKind) -> bool {
    k == StructureKind::Spawn || k == StructureKind::Extension || k == StructureKind::Tower
        || k == StructureKind::Storage
}

/// A unit's current multi-tick objective. Each variant holds the identity of
/// the object it works on, never a live handle.
#[derive(Clone, Copy, PartialEq, Eq, Structural, Debug)]
pub enum Task {
    /// Gather energy from the source with this identity.
    Harvest(u64),
    /// Carry energy into the structure with this identity.
    DepositToStructure(StructureKind, u64),
    /// Repair the damaged structure with this identity.
    Repair(u64),
    /// Work on the construction site with this identity.
    Build(u64),
    /// Upgrade the room controller with this identity.
    UpgradeController(u64),
    /// Pick up the dropped resource with this identity.
    Pickup(u64),
    /// Hand carried energy to the peer unit with this identity.
    TransferToUnit(u64),
}

/// A target held by a defensive structure.
#[derive(Clone, Copy, PartialEq, Eq, Structural, Debug)]
pub enum TowerTarget {
    /// Keep firing at the hostile with this identity.
    Attack(u64),
    /// Keep repairing the structure with this identity.
    Repair(u64),
}

/// An outcome code returned by a host verb.
#[derive(Clone, Copy, PartialEq, Eq, Structural, Debug)]
pub enum Outcome {
    /// The verb succeeded this tick.
    Success,
    /// The actor is too far from the target.
    NotInRange,
    /// The target cannot take more.
    Full,
    /// Movement is throttled this tick.
    Tired,
    /// The target is not a valid subject for the verb.
    InvalidTarget,
    /// The actor lacks the resource the verb needs.
    NotEnough,
    /// Any other host error code.
    Failure(i32),
}

/// A command the core asks the host to perform this tick. Each names the
/// object it acts on by identity; the host resolves it.
#[derive(Clone, Copy, PartialEq, Eq, Structural, Debug)]
pub enum Action {
    /// Step toward the object with this identity.
    MoveTo(u64),
    /// Step toward this tile.
    MoveToPos(crate::geom::Pos),
    /// Harvest from this source.
    HarvestFrom(u64),
    /// Transfer this much energy into this structure.
    TransferTo(u64, u32),
    /// Transfer this much energy to this peer unit.
    TransferToPeer(u64, u32),
    /// Withdraw this much energy from this structure.
    WithdrawFrom(u64, u32),
    /// Work on this construction site.
    BuildSite(u64),
    /// Repair this structure.
    RepairStructure(u64),
    /// Upgrade this controller.
    UpgradeAt(u64),
    /// Pick up this dropped resource.
    PickupResource(u64),
}

/// Why the executor dropped a task.
#[derive(Clone, Copy, PartialEq, Eq, Structural, Debug)]
pub enum DropReason {
    /// The embedded reference no longer resolves.
    Stale,
    /// The objective is met: nothing left to carry, gather or mend.
    Done,
    /// A verb was rejected with an unexpected code.
    Failed,
}

/// What one executor step decides before any verb runs.
#[derive(Clone, Copy, PartialEq, Eq, Structural, Debug)]
pub enum Plan {
    /// Issue this command and keep the task.
    Act(Action),
    /// Remove the task for this reason; no command this tick.
    Drop(DropReason),
}

/// How a finished verb settles the task that issued it.
#[derive(Clone, Copy, PartialEq, Eq, Structural, Debug)]
pub enum Settle {
    /// Keep the task for the next tick.
    Keep,
    /// Remove the task for this reason.
    Remove(DropReason),
    /// Replace the task with this one, within the same tick.
    Switch(Task),
}

} // verus!
