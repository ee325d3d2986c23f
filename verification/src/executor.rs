//! The task executor: advances one assigned task by exactly one step per
//! tick.
//!
//! Each step first re-resolves the task's reference against the snapshot; a
//! reference that fails to resolve cancels the task on the spot, with no
//! retry — the policy re-decides next tick. A resolved target is approached
//! until in range, then worked on with the terminal verb. Settling reads
//! the performed command together with its outcome: a move keeps the task
//! whatever the host reported, while a terminal verb's outcome decides
//! whether the task is kept, dropped, or replaced within the tick.

use vstd::prelude::*;

use crate::geom::spec_range;
use crate::get_value_to_transfer;
use crate::policy::spec_deposit_target;
use crate::select::{best_extension_idx, find_unfilled_extension_excluding};
use crate::task::{Action, DropReason, Outcome, Plan, Settle, StructureKind, Task};
use crate::world::{
    spec_lookup_dropped, spec_lookup_peer, spec_lookup_site, spec_lookup_source,
    spec_lookup_structure, Unit, WorldSnapshot,
};

verus! {

/// Board range within which repair, build and upgrade verbs work.
pub const WORK_RANGE: u32 = 3;

/// The amount one transfer moves: the carried energy clamped by the room
/// left in the target, never negative.
pub open spec fn spec_transfer_amount(carried: u32, free: i32) -> u32 {
    if free <= 0 {
        0
    } else if carried <= free {
        carried
    } else {
        free as u32
    }
}

/// A peer's free room, clamped into the host's signed capacity type.
pub open spec fn spec_peer_free(carried: u32, capacity: u32) -> i32 {
    if carried <= capacity {
        if capacity - carried <= i32::MAX {
            (capacity - carried) as i32
        } else {
            i32::MAX
        }
    } else {
        0
    }
}

/// Whether the reference a task embeds still resolves against the snapshot.
pub open spec fn task_ref_resolves(w: WorldSnapshot, t: Task) -> bool {
    match t {
        Task::Harvest(id) => spec_lookup_source(w.sources@, id) is Some,
        Task::DepositToStructure(_, id) => spec_lookup_structure(w.structures@, id) is Some,
        Task::Repair(id) => spec_lookup_structure(w.structures@, id) is Some,
        Task::Build(id) => spec_lookup_site(w.sites@, id) is Some,
        Task::UpgradeController(id) => spec_lookup_structure(w.structures@, id) is Some,
        Task::Pickup(id) => spec_lookup_dropped(w.dropped@, id) is Some,
        Task::TransferToUnit(id) => spec_lookup_peer(w.peers@, id) is Some,
    }
}

/// What one executor step decides for each task variant, before any verb
/// runs: drop a finished or stale task, move toward a distant target, or
/// issue the terminal verb in range.
pub open spec fn spec_plan_task(unit: Unit, w: WorldSnapshot, t: Task) -> Plan {
    match t {
        Task::Harvest(id) => {
            if unit.spec_free() <= 0 {
                Plan::Drop(DropReason::Done)
            } else {
                match spec_lookup_source(w.sources@, id) {
                    Some(s) => if spec_range(unit.pos, s.pos) <= 1 {
                        Plan::Act(Action::HarvestFrom(id))
                    } else {
                        Plan::Act(Action::MoveTo(id))
                    },
                    None => Plan::Drop(DropReason::Stale),
                }
            }
        },
        Task::DepositToStructure(_, id) => {
            if unit.carried == 0 {
                Plan::Drop(DropReason::Done)
            } else {
                match spec_lookup_structure(w.structures@, id) {
                    Some(st) => if spec_range(unit.pos, st.pos) <= 1 {
                        Plan::Act(
                            Action::TransferTo(
                                id,
                                spec_transfer_amount(unit.carried, st.free_energy),
                            ),
                        )
                    } else {
                        Plan::Act(Action::MoveTo(id))
                    },
                    None => Plan::Drop(DropReason::Stale),
                }
            }
        },
        Task::Repair(id) => {
            if unit.carried == 0 {
                Plan::Drop(DropReason::Done)
            } else {
                match spec_lookup_structure(w.structures@, id) {
                    Some(st) => if st.hits == st.hits_max {
                        Plan::Drop(DropReason::Done)
                    } else if spec_range(unit.pos, st.pos) <= WORK_RANGE as int {
                        Plan::Act(Action::RepairStructure(id))
                    } else {
                        Plan::Act(Action::MoveTo(id))
                    },
                    None => Plan::Drop(DropReason::Stale),
                }
            }
        },
        Task::Build(id) => {
            if unit.carried == 0 {
                Plan::Drop(DropReason::Done)
            } else {
                match spec_lookup_site(w.sites@, id) {
                    Some(site) => if site.kind == StructureKind::Controller {
                        Plan::Drop(DropReason::Failed)
                    } else if spec_range(unit.pos, site.pos) <= WORK_RANGE as int {
                        Plan::Act(Action::BuildSite(id))
                    } else {
                        Plan::Act(Action::MoveTo(id))
                    },
                    None => Plan::Drop(DropReason::Stale),
                }
            }
        },
        Task::UpgradeController(id) => {
            if unit.carried == 0 {
                Plan::Drop(DropReason::Done)
            } else {
                match spec_lookup_structure(w.structures@, id) {
                    Some(st) => if spec_range(unit.pos, st.pos) <= WORK_RANGE as int {
                        Plan::Act(Action::UpgradeAt(id))
                    } else {
                        Plan::Act(Action::MoveTo(id))
                    },
                    None => Plan::Drop(DropReason::Stale),
                }
            }
        },
        Task::Pickup(id) => {
            match spec_lookup_dropped(w.dropped@, id) {
                Some(d) => if spec_range(unit.pos, d.pos) <= 1 {
                    Plan::Act(Action::PickupResource(id))
                } else {
                    Plan::Act(Action::MoveTo(id))
                },
                None => Plan::Drop(DropReason::Stale),
            }
        },
        Task::TransferToUnit(id) => {
            if unit.carried == 0 {
                Plan::Drop(DropReason::Done)
            } else {
                match spec_lookup_peer(w.peers@, id) {
                    Some(p) => if spec_range(unit.pos, p.pos) <= 1 {
                        Plan::Act(
                            Action::TransferToPeer(
                                id,
                                spec_transfer_amount(
                                    unit.carried,
                                    spec_peer_free(p.carried, p.capacity),
                                ),
                            ),
                        )
                    } else {
                        Plan::Act(Action::MoveTo(id))
                    },
                    None => Plan::Drop(DropReason::Stale),
                }
            }
        },
    }
}

/// A task whose reference fails to resolve is dropped by one executor step,
/// whatever else holds of the unit.
pub proof fn lemma_unresolved_task_dropped(unit: Unit, w: WorldSnapshot, t: Task)
    requires
        !task_ref_resolves(w, t),
    ensures
        spec_plan_task(unit, w, t) is Drop,
{
}

/// Whether a command only moves the unit, leaving the task's terminal verb
/// for a later tick.
pub open spec fn is_move_action(a: Action) -> bool {
    a is MoveTo || a is MoveToPos
}

/// How a performed command settles the task that issued it. A move, however
/// it went, keeps the task: the unit is still seeking, and a stale target is
/// caught by the next tick's re-resolution. A terminal verb's success
/// advances the task (chaining a finished extension deposit to the next
/// unfilled extension, and handing a finished pickup straight to a deposit),
/// saturation ends it, movement hiccups keep it, and any unexpected code
/// fails it.
pub open spec fn spec_settle_task(
    unit: Unit,
    w: WorldSnapshot,
    t: Task,
    action: Action,
    outcome: Outcome,
) -> Settle {
    if is_move_action(action) {
        Settle::Keep
    } else {
        spec_settle_verb(unit, w, t, outcome)
    }
}

/// How a terminal verb's outcome settles the task that issued it.
pub open spec fn spec_settle_verb(unit: Unit, w: WorldSnapshot, t: Task, outcome: Outcome) -> Settle {
    match outcome {
        Outcome::NotInRange => Settle::Keep,
        Outcome::Tired => Settle::Keep,
        Outcome::Success => match t {
            Task::Harvest(_) => Settle::Keep,
            Task::Repair(_) => Settle::Keep,
            Task::Build(_) => Settle::Keep,
            Task::UpgradeController(_) => Settle::Keep,
            Task::TransferToUnit(_) => Settle::Remove(DropReason::Done),
            Task::Pickup(_) => match spec_deposit_target(w, unit) {
                Some((k, id)) => Settle::Switch(Task::DepositToStructure(k, id)),
                None => Settle::Remove(DropReason::Done),
            },
            Task::DepositToStructure(k, id) => match spec_lookup_structure(w.structures@, id) {
                Some(st) => {
                    let residual = unit.carried - spec_transfer_amount(unit.carried, st.free_energy);
                    if residual > 0 && k == StructureKind::Extension && best_extension_idx(
                        w.structures@,
                        unit.pos,
                        Some(id),
                    ) is Some {
                        Settle::Switch(
                            Task::DepositToStructure(
                                StructureKind::Extension,
                                w.structures@[best_extension_idx(w.structures@, unit.pos, Some(id))->0].id,
                            ),
                        )
                    } else {
                        Settle::Remove(DropReason::Done)
                    }
                },
                None => Settle::Remove(DropReason::Stale),
            },
        },
        Outcome::Full => match t {
            Task::DepositToStructure(k, id) => {
                if unit.carried > 0 && k == StructureKind::Extension && best_extension_idx(
                    w.structures@,
                    unit.pos,
                    Some(id),
                ) is Some {
                    Settle::Switch(
                        Task::DepositToStructure(
                            StructureKind::Extension,
                            w.structures@[best_extension_idx(w.structures@, unit.pos, Some(id))->0].id,
                        ),
                    )
                } else {
                    Settle::Remove(DropReason::Done)
                }
            },
            Task::TransferToUnit(_) => Settle::Remove(DropReason::Done),
            _ => Settle::Remove(DropReason::Failed),
        },
        Outcome::InvalidTarget => Settle::Remove(DropReason::Failed),
        Outcome::NotEnough => Settle::Remove(DropReason::Failed),
        Outcome::Failure(_) => Settle::Remove(DropReason::Failed),
    }
}

/// Decides one executor step for the task, before any verb runs.
pub fn plan_task(unit: &Unit, w: &WorldSnapshot, t: Task) -> (r: Plan)
    requires
        unit.wf(),
        w.wf(),
    ensures
        r == spec_plan_task(*unit, *w, t),
{
    match t {
        Task::Harvest(id) => {
            if unit.free_capacity() == 0 {
                return Plan::Drop(DropReason::Done);
            }
            match w.lookup_source(id) {
                Some(s) => {
                    if unit.pos.is_near_to(&s.pos) {
                        Plan::Act(Action::HarvestFrom(id))
                    } else {
                        Plan::Act(Action::MoveTo(id))
                    }
                },
                None => Plan::Drop(DropReason::Stale),
            }
        },
        Task::DepositToStructure(_, id) => {
            if unit.carried == 0 {
                return Plan::Drop(DropReason::Done);
            }
            match w.lookup_structure(id) {
                Some(st) => {
                    if unit.pos.is_near_to(&st.pos) {
                        let amount = get_value_to_transfer(unit.carried, st.free_energy);
                        Plan::Act(Action::TransferTo(id, amount))
                    } else {
                        Plan::Act(Action::MoveTo(id))
                    }
                },
                None => Plan::Drop(DropReason::Stale),
            }
        },
        Task::Repair(id) => {
            if unit.carried == 0 {
                return Plan::Drop(DropReason::Done);
            }
            match w.lookup_structure(id) {
                Some(st) => {
                    if st.hits == st.hits_max {
                        Plan::Drop(DropReason::Done)
                    } else if unit.pos.range_to(&st.pos) <= WORK_RANGE {
                        Plan::Act(Action::RepairStructure(id))
                    } else {
                        Plan::Act(Action::MoveTo(id))
                    }
                },
                None => Plan::Drop(DropReason::Stale),
            }
        },
        Task::Build(id) => {
            if unit.carried == 0 {
                return Plan::Drop(DropReason::Done);
            }
            match w.lookup_site(id) {
                Some(site) => {
                    if site.kind == StructureKind::Controller {
                        Plan::Drop(DropReason::Failed)
                    } else if unit.pos.range_to(&site.pos) <= WORK_RANGE {
                        Plan::Act(Action::BuildSite(id))
                    } else {
                        Plan::Act(Action::MoveTo(id))
                    }
                },
                None => Plan::Drop(DropReason::Stale),
            }
        },
        Task::UpgradeController(id) => {
            if unit.carried == 0 {
                return Plan::Drop(DropReason::Done);
            }
            match w.lookup_structure(id) {
                Some(st) => {
                    if unit.pos.range_to(&st.pos) <= WORK_RANGE {
                        Plan::Act(Action::UpgradeAt(id))
                    } else {
                        Plan::Act(Action::MoveTo(id))
                    }
                },
                None => Plan::Drop(DropReason::Stale),
            }
        },
        Task::Pickup(id) => {
            match w.lookup_dropped(id) {
                Some(d) => {
                    if unit.pos.is_near_to(&d.pos) {
                        Plan::Act(Action::PickupResource(id))
                    } else {
                        Plan::Act(Action::MoveTo(id))
                    }
                },
                None => Plan::Drop(DropReason::Stale),
            }
        },
        Task::TransferToUnit(id) => {
            if unit.carried == 0 {
                return Plan::Drop(DropReason::Done);
            }
            match w.lookup_peer(id) {
                Some(p) => {
                    if unit.pos.is_near_to(&p.pos) {
                        let peer_free: i32 = if p.carried <= p.capacity {
                            if p.capacity - p.carried <= i32::MAX as u32 {
                                (p.capacity - p.carried) as i32
                            } else {
                                i32::MAX
                            }
                        } else {
                            0
                        };
                        let amount = get_value_to_transfer(unit.carried, peer_free);
                        Plan::Act(Action::TransferToPeer(id, amount))
                    } else {
                        Plan::Act(Action::MoveTo(id))
                    }
                },
                None => Plan::Drop(DropReason::Stale),
            }
        },
    }
}

/// Settles one performed command against the task that issued it.
pub fn settle_task(unit: &Unit, w: &WorldSnapshot, t: Task, action: Action, outcome: Outcome) -> (r:
    Settle)
    requires
        unit.wf(),
        w.wf(),
    ensures
        r == spec_settle_task(*unit, *w, t, action, outcome),
{
    let moving = match action {
        Action::MoveTo(_) => true,
        Action::MoveToPos(_) => true,
        _ => false,
    };
    if moving {
        return Settle::Keep;
    }
    match outcome {
        Outcome::NotInRange => Settle::Keep,
        Outcome::Tired => Settle::Keep,
        Outcome::Success => match t {
            Task::Harvest(_) => Settle::Keep,
            Task::Repair(_) => Settle::Keep,
            Task::Build(_) => Settle::Keep,
            Task::UpgradeController(_) => Settle::Keep,
            Task::TransferToUnit(_) => Settle::Remove(DropReason::Done),
            Task::Pickup(_) => match crate::policy::find_deposit(w, unit) {
                Some((k, id)) => Settle::Switch(Task::DepositToStructure(k, id)),
                None => Settle::Remove(DropReason::Done),
            },
            Task::DepositToStructure(k, id) => match w.lookup_structure(id) {
                Some(st) => {
                    let amount = get_value_to_transfer(unit.carried, st.free_energy);
                    let residual = unit.carried - amount;
                    if residual > 0 && k == StructureKind::Extension {
                        match find_unfilled_extension_excluding(&w.structures, unit.pos, Some(id)) {
                            Some(next) => Settle::Switch(
                                Task::DepositToStructure(StructureKind::Extension, next.id),
                            ),
                            None => Settle::Remove(DropReason::Done),
                        }
                    } else {
                        Settle::Remove(DropReason::Done)
                    }
                },
                None => Settle::Remove(DropReason::Stale),
            },
        },
        Outcome::Full => match t {
            Task::DepositToStructure(k, id) => {
                if unit.carried > 0 && k == StructureKind::Extension {
                    match find_unfilled_extension_excluding(&w.structures, unit.pos, Some(id)) {
                        Some(next) => Settle::Switch(
                            Task::DepositToStructure(StructureKind::Extension, next.id),
                        ),
                        None => Settle::Remove(DropReason::Done),
                    }
                } else {
                    Settle::Remove(DropReason::Done)
                }
            },
            Task::TransferToUnit(_) => Settle::Remove(DropReason::Done),
            _ => Settle::Remove(DropReason::Failed),
        },
        Outcome::InvalidTarget => Settle::Remove(DropReason::Failed),
        Outcome::NotEnough => Settle::Remove(DropReason::Failed),
        Outcome::Failure(_) => Settle::Remove(DropReason::Failed),
    }
}

} // verus!
