//! The defense loop: each tower's independent attack/repair state machine,
//! run at the same tick boundary as unit tasking but decoupled from it.
//!
//! Targets are keyed by tower position, as the host designs towers without
//! an identity of their own. Defense always preempts repair: any hostile in
//! the room takes the target slot, discarding a repair in progress.

use vstd::prelude::*;

use crate::geom::{spec_pos_key, Pos};
use crate::registry::Registry;
use crate::select::best_repair_idx;
use crate::task::TowerTarget;
use crate::world::{spec_lookup_structure, WorldSnapshot};

verus! {

/// One tower's own state: where it stands and how much energy it holds.
#[derive(Clone, Copy, PartialEq, Eq, Structural, Debug)]
pub struct TowerView {
    pub pos: Pos,
    /// Energy currently stored.
    pub stored: u32,
    /// Total energy capacity.
    pub capacity: u32,
}

/// What one tower tick does to the target registry and which verb it
/// issues: the new registry content for the tower's key, and the verb.
///
/// An attack in progress is re-issued until the verb fails. A hostile
/// entering the room preempts anything else. A held repair target is
/// re-resolved and dropped when stale or healed. With no target and no
/// hostile, a tower whose stored energy is below half its capacity
/// conserves, saving for a possible attack; otherwise it acquires the
/// lowest-hits damaged structure as a repair target, starting work next
/// tick.
pub open spec fn spec_tower_step(
    m: Map<u64, TowerTarget>,
    tower: TowerView,
    w: WorldSnapshot,
) -> (Map<u64, TowerTarget>, Option<TowerTarget>) {
    let key = spec_pos_key(tower.pos);
    if m.contains_key(key) && m[key] is Attack {
        (m, Some(m[key]))
    } else if w.hostiles@.len() > 0 {
        let target = TowerTarget::Attack(w.hostiles@[0]);
        (m.insert(key, target), Some(target))
    } else if m.contains_key(key) {
        // A held repair target, with no hostile to preempt it.
        let id = m[key]->Repair_0;
        match spec_lookup_structure(w.structures@, id) {
            Some(st) => if st.hits == st.hits_max {
                (m.remove(key), None)
            } else {
                (m, Some(TowerTarget::Repair(id)))
            },
            None => (m.remove(key), None),
        }
    } else if 2 * tower.stored < tower.capacity {
        (m, None)
    } else {
        match best_repair_idx(w.structures@) {
            Some(i) => (m.insert(key, TowerTarget::Repair(w.structures@[i].id)), None),
            None => (m, None),
        }
    }
}

/// Defense preemption: a tower holding a repair target switches to
/// attacking a hostile on the very tick the hostile appears, discarding the
/// repair target.
pub proof fn lemma_defense_preemption(m: Map<u64, TowerTarget>, tower: TowerView, w: WorldSnapshot)
    requires
        m.contains_key(spec_pos_key(tower.pos)),
        m[spec_pos_key(tower.pos)] is Repair,
        w.hostiles@.len() > 0,
    ensures
        ({
            let (m2, act) = spec_tower_step(m, tower, w);
            &&& m2[spec_pos_key(tower.pos)] == TowerTarget::Attack(w.hostiles@[0])
            &&& act == Some(TowerTarget::Attack(w.hostiles@[0]))
        }),
{
}

/// Runs one tower's tick: updates its target slot and returns the verb to
/// issue, if any.
pub fn tower_run(reg: &mut Registry<TowerTarget>, tower: &TowerView, w: &WorldSnapshot) -> (r:
    Option<TowerTarget>)
    requires
        old(reg).wf(),
        w.wf(),
    ensures
        final(reg).wf(),
        (final(reg)@, r) == spec_tower_step(old(reg)@, *tower, *w),
{
    let key = tower.pos.key();
    let held: Option<TowerTarget> = match reg.get(key) {
        Some(t) => Some(*t),
        None => None,
    };
    if let Some(TowerTarget::Attack(h)) = held {
        return Some(TowerTarget::Attack(h));
    }
    if w.hostiles.len() > 0 {
        let target = TowerTarget::Attack(w.hostiles[0]);
        reg.set(key, target);
        return Some(target);
    }
    if let Some(TowerTarget::Repair(id)) = held {
        match w.lookup_structure(id) {
            Some(st) => {
                if st.hits == st.hits_max {
                    reg.remove(key);
                    return None;
                }
                return Some(TowerTarget::Repair(id));
            },
            None => {
                reg.remove(key);
                return None;
            },
        }
    }
    if (tower.stored as u64) * 2 < tower.capacity as u64 {
        return None;
    }
    match crate::select::lowest_hits_damaged(&w.structures) {
        Some(obj) => {
            reg.set(key, TowerTarget::Repair(obj.id));
            None
        },
        None => None,
    }
}

/// Settles one tower verb: a failed attack or repair drops the target, so
/// the next tick acquires afresh; success keeps it.
pub fn tower_settle(reg: &mut Registry<TowerTarget>, tower: &TowerView, outcome: crate::task::Outcome)
    requires
        old(reg).wf(),
    ensures
        final(reg).wf(),
        outcome == crate::task::Outcome::Success ==> final(reg)@ == old(reg)@,
        outcome != crate::task::Outcome::Success ==> final(reg)@ == old(reg)@.remove(
            spec_pos_key(tower.pos),
        ),
{
    if outcome != crate::task::Outcome::Success {
        let key = tower.pos.key();
        reg.remove(key);
    }
}

} // verus!
