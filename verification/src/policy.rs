//! The task policy: what an idle unit is assigned, given the snapshot and
//! the injected random draws.
//!
//! Precedence: a unit with room picks up a reachable drop, else harvests the
//! nearest reachable active source, else stays idle. A full unit draws a
//! weighted outcome: most of the time it deposits, otherwise it repairs or
//! builds/upgrades. The randomness spreads units over targets instead of
//! letting every unit crowd the same best one; the draws are parameters so
//! the decision itself is a pure function.

use vstd::prelude::*;

use crate::select::{
    best_dropped_idx, best_extension_idx, best_repair_idx, best_site_idx, best_source_idx,
    best_tower_idx, find_first_of_kind, find_spawn_with_free, find_tower,
    find_unfilled_extension, first_kind_idx, last_spawn_idx, lowest_hits_damaged, nearest_dropped,
    nearest_site, pick_closest_energy_source,
};
use crate::task::{StructureKind, Task};
use crate::world::{Unit, WorldSnapshot};

verus! {

/// Unit count above which towers are offered deposits.
pub const TOWER_POPULATION_THRESHOLD: u32 = 10;

/// Lower unit-count threshold that applies while hostiles are present.
pub const TOWER_DANGER_THRESHOLD: u32 = 5;

/// The random draws one policy decision consumes, all injected by the
/// caller: a draw below ten picking deposit against the rest, a draw below
/// three picking repair, and a draw below two picking build against upgrade.
#[derive(Clone, Copy, PartialEq, Eq, Structural, Debug)]
pub struct PolicyDraws {
    pub deposit_draw: u32,
    pub repair_draw: u32,
    pub controller_draw: u32,
}

impl PolicyDraws {
    /// Each draw is below its modulus.
    pub open spec fn wf(self) -> bool {
        self.deposit_draw < 10 && self.repair_draw < 3 && self.controller_draw < 2
    }
}

/// Whether towers may be offered deposits this tick: the colony is large, or
/// hostiles are present and it is at least moderately sized.
pub open spec fn spec_tower_allowed(w: WorldSnapshot) -> bool {
    w.unit_count > TOWER_POPULATION_THRESHOLD || (w.hostiles@.len() > 0 && w.unit_count
        > TOWER_DANGER_THRESHOLD)
}

/// The deposit target a full unit is sent to, by fixed precedence: the
/// nearest unfilled extension, else any spawn with room, else a tower
/// missing more than its reserve (only when `spec_tower_allowed`), else the
/// storage.
pub open spec fn spec_deposit_target(w: WorldSnapshot, unit: Unit) -> Option<(StructureKind, u64)> {
    match best_extension_idx(w.structures@, unit.pos, None) {
        Some(i) => Some((StructureKind::Extension, w.structures@[i].id)),
        None => match last_spawn_idx(w.structures@) {
            Some(i) => Some((StructureKind::Spawn, w.structures@[i].id)),
            None => if spec_tower_allowed(w) && best_tower_idx(w.structures@) is Some {
                Some((StructureKind::Tower, w.structures@[best_tower_idx(w.structures@)->0].id))
            } else {
                match first_kind_idx(w.structures@, StructureKind::Storage, true) {
                    Some(i) => Some((StructureKind::Storage, w.structures@[i].id)),
                    None => None,
                }
            },
        },
    }
}

/// The build-or-upgrade branch: one draw prefers the nearest reachable
/// construction site (a site that is really the controller upgrades it
/// instead), the other goes straight for the controller.
pub open spec fn spec_build_or_upgrade(w: WorldSnapshot, d: PolicyDraws) -> Option<Task> {
    if d.controller_draw < 1 {
        match best_site_idx(w.sites@) {
            Some(i) => if w.sites@[i].kind == StructureKind::Controller {
                match first_kind_idx(w.structures@, StructureKind::Controller, false) {
                    Some(c) => Some(Task::UpgradeController(w.structures@[c].id)),
                    None => None,
                }
            } else {
                Some(Task::Build(w.sites@[i].id))
            },
            None => None,
        }
    } else {
        match first_kind_idx(w.structures@, StructureKind::Controller, false) {
            Some(c) => Some(Task::UpgradeController(w.structures@[c].id)),
            None => None,
        }
    }
}

/// The full policy decision for an idle unit. `None` leaves the unit idle
/// this tick: a valid quiescent state, not a failure.
pub open spec fn spec_choose_task(unit: Unit, w: WorldSnapshot, d: PolicyDraws) -> Option<Task> {
    if unit.spec_free() > 0 {
        match best_dropped_idx(w.dropped@) {
            Some(i) => Some(Task::Pickup(w.dropped@[i].id)),
            None => match best_source_idx(w.sources@) {
                Some(i) => Some(Task::Harvest(w.sources@[i].id)),
                None => None,
            },
        }
    } else if d.deposit_draw < 8 {
        match spec_deposit_target(w, unit) {
            Some((k, id)) => Some(Task::DepositToStructure(k, id)),
            None => None,
        }
    } else if d.repair_draw < 1 && best_repair_idx(w.structures@) is Some {
        Some(Task::Repair(w.structures@[best_repair_idx(w.structures@)->0].id))
    } else {
        spec_build_or_upgrade(w, d)
    }
}

/// Resolves the deposit target for a full unit.
pub fn find_deposit(w: &WorldSnapshot, unit: &Unit) -> (r: Option<(StructureKind, u64)>)
    ensures
        r == spec_deposit_target(*w, *unit),
{
    if let Some(ext) = find_unfilled_extension(&w.structures, unit.pos) {
        return Some((StructureKind::Extension, ext.id));
    }
    if let Some(spawn) = find_spawn_with_free(&w.structures) {
        return Some((StructureKind::Spawn, spawn.id));
    }
    let tower_allowed = w.unit_count > TOWER_POPULATION_THRESHOLD || (w.hostiles.len() > 0
        && w.unit_count > TOWER_DANGER_THRESHOLD);
    if tower_allowed {
        if let Some(t) = find_tower(&w.structures) {
            return Some((StructureKind::Tower, t.id));
        }
    }
    if let Some(st) = find_first_of_kind(&w.structures, StructureKind::Storage, true) {
        return Some((StructureKind::Storage, st.id));
    }
    None
}

/// Picks a task for an idle unit, or leaves it idle.
pub fn choose_task(unit: &Unit, w: &WorldSnapshot, d: PolicyDraws) -> (r: Option<Task>)
    requires
        unit.wf(),
        d.wf(),
    ensures
        r == spec_choose_task(*unit, *w, d),
{
    if unit.free_capacity() > 0 {
        if let Some(drop) = nearest_dropped(w) {
            return Some(Task::Pickup(drop.id));
        }
        if let Some(source) = pick_closest_energy_source(w) {
            return Some(Task::Harvest(source.id));
        }
        return None;
    }
    if d.deposit_draw < 8 {
        return match find_deposit(w, unit) {
            Some((k, id)) => Some(Task::DepositToStructure(k, id)),
            None => None,
        };
    }
    if d.repair_draw < 1 {
        if let Some(obj) = lowest_hits_damaged(&w.structures) {
            return Some(Task::Repair(obj.id));
        }
    }
    if d.controller_draw < 1 {
        match nearest_site(w) {
            Some(site) => {
                if site.kind == StructureKind::Controller {
                    match find_first_of_kind(&w.structures, StructureKind::Controller, false) {
                        Some(c) => Some(Task::UpgradeController(c.id)),
                        None => None,
                    }
                } else {
                    Some(Task::Build(site.id))
                }
            },
            None => None,
        }
    } else {
        match find_first_of_kind(&w.structures, StructureKind::Controller, false) {
            Some(c) => Some(Task::UpgradeController(c.id)),
            None => None,
        }
    }
}

} // verus!
