//! The builder role: works the nearest reachable construction site, and
//! falls back to repairing the most damaged structure when nothing is under
//! construction.

use vstd::prelude::*;

use crate::executor::WORK_RANGE;
use crate::geom::spec_range;
use crate::select::{best_repair_idx, best_site_idx, lowest_hits_damaged, nearest_site};
use crate::task::Action;
use crate::world::{Unit, WorldSnapshot};

verus! {

/// One builder tick: with energy in store, build at the nearest reachable
/// site (walking there first), else repair the most damaged structure; with
/// an empty store, do nothing — the host is told so it can show it.
pub open spec fn spec_builder_run(unit: Unit, w: WorldSnapshot) -> Option<Action> {
    if unit.carried > 0 {
        match best_site_idx(w.sites@) {
            Some(i) => {
                let site = w.sites@[i];
                if spec_range(unit.pos, site.pos) <= 1 {
                    Some(Action::BuildSite(site.id))
                } else {
                    Some(Action::MoveToPos(site.pos))
                }
            },
            None => match best_repair_idx(w.structures@) {
                Some(i) => {
                    let st = w.structures@[i];
                    if spec_range(unit.pos, st.pos) <= WORK_RANGE as int {
                        Some(Action::RepairStructure(st.id))
                    } else {
                        Some(Action::MoveToPos(st.pos))
                    }
                },
                None => None,
            },
        }
    } else {
        None
    }
}

/// Runs one builder tick.
pub fn builder_run(unit: &Unit, w: &WorldSnapshot) -> (r: Option<Action>)
    requires
        unit.wf(),
    ensures
        r == spec_builder_run(*unit, *w),
{
    if unit.carried == 0 {
        return None;
    }
    if let Some(site) = nearest_site(w) {
        if unit.pos.is_near_to(&site.pos) {
            return Some(Action::BuildSite(site.id));
        }
        return Some(Action::MoveToPos(site.pos));
    }
    match lowest_hits_damaged(&w.structures) {
        Some(st) => {
            if unit.pos.range_to(&st.pos) <= WORK_RANGE {
                Some(Action::RepairStructure(st.id))
            } else {
                Some(Action::MoveToPos(st.pos))
            }
        },
        None => None,
    }
}

} // verus!
