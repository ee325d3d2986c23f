//! The hauler role: carries energy from containers, drops and the storage
//! to the structures that need it, and hands it to builders.
//!
//! A hauler with energy walks it to the closest depositable by the same
//! fixed precedence as the task policy's deposit flow (extension, spawn,
//! tower, storage); when only the storage is left, it prefers handing the
//! energy to a builder peer, recorded as a hand-off task. An empty hauler
//! refills from the closest sufficiently full container, else from the
//! floor, else from the storage.

use vstd::prelude::*;

use crate::executor::spec_transfer_amount;
use crate::geom::{spec_range, Pos};
use crate::get_value_to_transfer;
use crate::registry::Registry;
use crate::select::{
    best_container_idx, best_dropped_idx, best_extension_idx, best_peer_idx, best_tower_idx,
    find_closest_container as select_closest_container, find_creep, find_first_of_kind,
    find_spawn_with_free, find_tower, find_unfilled_extension, first_kind_idx, last_spawn_idx,
    nearest_dropped,
};
use crate::task::{Action, StructureKind, Task};
use crate::world::{StructureView, Unit, WorldSnapshot};

verus! {

/// A chosen deposit or withdrawal target: the structure's identity and
/// whereabouts, and the amount worth moving.
#[derive(Clone, Copy, PartialEq, Eq, Structural, Debug)]
pub struct Deposit {
    pub id: u64,
    pub kind: StructureKind,
    pub position: Pos,
    /// The amount the chooser computed for this target.
    pub amount: u32,
    pub is_storage: bool,
}

/// The deposit record built from a structure and a precomputed amount.
pub open spec fn spec_deposit_of(st: StructureView, amount: u32) -> Deposit {
    Deposit {
        id: st.id,
        kind: st.kind,
        position: st.pos,
        amount,
        is_storage: st.kind == StructureKind::Storage,
    }
}

impl Deposit {
    /// Packs a chosen structure and amount.
    pub fn new(st: &StructureView, amount: u32) -> (r: Deposit)
        ensures
            r == spec_deposit_of(*st, amount),
    {
        Deposit {
            id: st.id,
            kind: st.kind,
            position: st.pos,
            amount,
            is_storage: st.kind == StructureKind::Storage,
        }
    }

    /// Where the target stands.
    pub fn pos(&self) -> (r: Pos)
        ensures
            r == self.position,
    {
        self.position
    }

    /// The amount worth moving to or from the target.
    pub fn amount(&self) -> (r: u32)
        ensures
            r == self.amount,
    {
        self.amount
    }

    /// Whether the target is the storage.
    pub fn is_storage(&self) -> (r: bool)
        ensures
            r == self.is_storage,
    {
        self.is_storage
    }
}

/// Clamps a withdrawal to what the unit can hold and the target offers.
pub fn get_value_to_withdraw(unit_free_capacity: u32, target_used: u32) -> (r: u32)
    ensures
        r == if target_used < unit_free_capacity {
            target_used
        } else {
            unit_free_capacity
        },
        r <= unit_free_capacity,
        r <= target_used,
{
    if target_used < unit_free_capacity {
        target_used
    } else {
        unit_free_capacity
    }
}

/// The depositable a loaded hauler walks to, by the same fixed precedence
/// the task policy's deposit flow uses: the nearest unfilled extension,
/// else the last spawn with room, else a tower missing more than its
/// reserve, else the storage.
pub open spec fn spec_find_closest_depositable(unit: Unit, w: WorldSnapshot) -> Option<Deposit> {
    match best_extension_idx(w.structures@, unit.pos, None) {
        Some(i) => Some(
            spec_deposit_of(
                w.structures@[i],
                spec_transfer_amount(unit.carried, w.structures@[i].free_energy),
            ),
        ),
        None => match last_spawn_idx(w.structures@) {
            Some(i) => Some(
                spec_deposit_of(
                    w.structures@[i],
                    spec_transfer_amount(unit.carried, w.structures@[i].free_energy),
                ),
            ),
            None => match best_tower_idx(w.structures@) {
                Some(i) => Some(
                    spec_deposit_of(
                        w.structures@[i],
                        spec_transfer_amount(unit.carried, w.structures@[i].free_energy),
                    ),
                ),
                None => match first_kind_idx(w.structures@, StructureKind::Storage, true) {
                    Some(i) => Some(
                        spec_deposit_of(
                            w.structures@[i],
                            spec_transfer_amount(unit.carried, w.structures@[i].free_energy),
                        ),
                    ),
                    None => None,
                },
            },
        },
    }
}

/// Finds the depositable a loaded hauler should walk to. The `danger` flag
/// is reserved for a defensive precedence that is not applied yet.
pub fn find_closest_depositable(unit: &Unit, w: &WorldSnapshot, danger: bool) -> (r: Option<
    Deposit,
>)
    ensures
        r == spec_find_closest_depositable(*unit, *w),
{
    let _ = danger;
    if let Some(ext) = find_unfilled_extension(&w.structures, unit.pos) {
        let amount = get_value_to_transfer(unit.carried, ext.free_energy);
        return Some(Deposit::new(&ext, amount));
    }
    if let Some(s) = find_spawn_with_free(&w.structures) {
        let amount = get_value_to_transfer(unit.carried, s.free_energy);
        return Some(Deposit::new(&s, amount));
    }
    if let Some(t) = find_tower(&w.structures) {
        let amount = get_value_to_transfer(unit.carried, t.free_energy);
        return Some(Deposit::new(&t, amount));
    }
    if let Some(st) = find_first_of_kind(&w.structures, StructureKind::Storage, true) {
        let amount = get_value_to_transfer(unit.carried, st.free_energy);
        return Some(Deposit::new(&st, amount));
    }
    None
}

/// The container an empty hauler refills from: the nearest one holding at
/// least a full load, with the withdrawal clamped to the unit's free room.
pub open spec fn spec_find_closest_container(unit: Unit, w: WorldSnapshot) -> Option<Deposit> {
    match best_container_idx(w.structures@, unit.pos, unit.capacity) {
        Some(i) => {
            let st = w.structures@[i];
            if st.used_energy < unit.spec_free() {
                None
            } else {
                Some(
                    spec_deposit_of(
                        st,
                        if st.used_energy < unit.spec_free() {
                            st.used_energy
                        } else {
                            (unit.capacity - unit.carried) as u32
                        },
                    ),
                )
            }
        },
        None => None,
    }
}

/// Finds the closest container that can at least fill the hauler's store.
pub fn find_closest_container(unit: &Unit, w: &WorldSnapshot) -> (r: Option<Deposit>)
    requires
        unit.wf(),
    ensures
        r == spec_find_closest_container(*unit, *w),
{
    match select_closest_container(&w.structures, unit.pos, unit.capacity) {
        Some(st) => {
            let free = unit.free_capacity();
            if st.used_energy < free {
                None
            } else {
                let amount = get_value_to_withdraw(free, st.used_energy);
                Some(Deposit::new(&st, amount))
            }
        },
        None => None,
    }
}

/// What one hauler tick does to the task registry and which command it
/// issues.
pub open spec fn spec_hauler_run(m: Map<u64, Task>, unit: Unit, w: WorldSnapshot) -> (
    Map<u64, Task>,
    Option<Action>,
) {
    if unit.carried > 0 {
        match spec_find_closest_depositable(unit, w) {
            Some(dep) => {
                if dep.is_storage && best_peer_idx(w.peers@, unit.pos) is Some {
                    (
                        m.insert(
                            unit.id,
                            Task::TransferToUnit(w.peers@[best_peer_idx(w.peers@, unit.pos)->0].id),
                        ),
                        None,
                    )
                } else if spec_range(unit.pos, dep.position) <= 1 {
                    (m, Some(Action::TransferTo(dep.id, dep.amount)))
                } else {
                    (m, Some(Action::MoveToPos(dep.position)))
                }
            },
            None => (m, None),
        }
    } else {
        match spec_find_closest_container(unit, w) {
            Some(dep) => if spec_range(unit.pos, dep.position) <= 1 {
                (m, Some(Action::WithdrawFrom(dep.id, dep.amount)))
            } else {
                (m, Some(Action::MoveToPos(dep.position)))
            },
            None => match best_dropped_idx(w.dropped@) {
                Some(i) => {
                    let d = w.dropped@[i];
                    if spec_range(unit.pos, d.pos) <= 1 {
                        (m, Some(Action::PickupResource(d.id)))
                    } else {
                        (m, Some(Action::MoveTo(d.id)))
                    }
                },
                None => match first_kind_idx(w.structures@, StructureKind::Storage, true) {
                    Some(i) => {
                        let st = w.structures@[i];
                        if st.used_energy >= unit.spec_free() / 2 {
                            let amount = if st.used_energy < unit.spec_free() {
                                st.used_energy
                            } else {
                                (unit.capacity - unit.carried) as u32
                            };
                            if spec_range(unit.pos, st.pos) <= 1 {
                                (m, Some(Action::WithdrawFrom(st.id, amount)))
                            } else {
                                (m, Some(Action::MoveToPos(st.pos)))
                            }
                        } else {
                            (m, None)
                        }
                    },
                    None => (m, None),
                },
            },
        }
    }
}

/// Runs one hauler tick: hand-offs are recorded in the registry (executed
/// by the task executor on later ticks); everything else is an immediate
/// command.
pub fn hauler_run(reg: &mut Registry<Task>, unit: &Unit, w: &WorldSnapshot) -> (r: Option<Action>)
    requires
        old(reg).wf(),
        unit.wf(),
    ensures
        final(reg).wf(),
        (final(reg)@, r) == spec_hauler_run(old(reg)@, *unit, *w),
{
    if unit.carried > 0 {
        match find_closest_depositable(unit, w, false) {
            Some(dep) => {
                if dep.is_storage() {
                    if let Some(peer) = find_creep(&w.peers, unit.pos) {
                        reg.set(unit.id, Task::TransferToUnit(peer.id));
                        return None;
                    }
                }
                if unit.pos.is_near_to(&dep.position) {
                    Some(Action::TransferTo(dep.id, dep.amount))
                } else {
                    Some(Action::MoveToPos(dep.position))
                }
            },
            None => None,
        }
    } else {
        if let Some(dep) = find_closest_container(unit, w) {
            if unit.pos.is_near_to(&dep.position) {
                return Some(Action::WithdrawFrom(dep.id, dep.amount));
            }
            return Some(Action::MoveToPos(dep.position));
        }
        if let Some(d) = nearest_dropped(w) {
            if unit.pos.is_near_to(&d.pos) {
                return Some(Action::PickupResource(d.id));
            }
            return Some(Action::MoveTo(d.id));
        }
        match find_first_of_kind(&w.structures, StructureKind::Storage, true) {
            Some(st) => {
                let free = unit.free_capacity();
                if st.used_energy >= free / 2 {
                    let amount = get_value_to_withdraw(free, st.used_energy);
                    if unit.pos.is_near_to(&st.pos) {
                        Some(Action::WithdrawFrom(st.id, amount))
                    } else {
                        Some(Action::MoveToPos(st.pos))
                    }
                } else {
                    None
                }
            },
            None => None,
        }
    }
}

} // verus!
