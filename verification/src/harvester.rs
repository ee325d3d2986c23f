//! The harvester role: a stationary worker that stands on a container tile
//! beside a source and gathers into it.
//!
//! Each tick the harvester picks the first source whose nearest container
//! tile is not taken by another unit, walks onto it, and harvests once
//! there. A source with no container nearby yields no spot.

use vstd::prelude::*;

use crate::geom::Pos;
use crate::select::{best_my_container_idx, find_closest_container_from_source};
use crate::task::Action;
use crate::world::{PeerView, Unit, WorldSnapshot};

verus! {

/// Whether another unit already stands on the spot. A unit standing there
/// itself does not count.
pub open spec fn spec_spot_occupied(peers: Seq<PeerView>, spot: Pos, unit_pos: Pos) -> bool {
    exists|i: int| 0 <= i < peers.len() && peers[i].pos == spot && peers[i].pos != unit_pos
}

/// Checks whether another unit already stands on the spot.
pub fn spot_occupied(peers: &Vec<PeerView>, spot: Pos, unit_pos: Pos) -> (r: bool)
    ensures
        r == spec_spot_occupied(peers@, spot, unit_pos),
{
    let n = peers.len();
    let mut i: usize = 0;
    while i < n
        invariant
            n == peers@.len(),
            0 <= i <= n,
            forall|j: int| 0 <= j < i ==> !(peers@[j].pos == spot && peers@[j].pos != unit_pos),
        decreases n - i,
    {
        if peers[i].pos.is_equal_to(&spot) && !peers[i].pos.is_equal_to(&unit_pos) {
            return true;
        }
        i += 1;
    }
    false
}

/// The harvesting spot the source at this index offers: the nearest
/// container tile, if there is a container and no other unit stands on it.
pub open spec fn spec_spot_at(w: WorldSnapshot, unit: Unit, i: int) -> Option<(u64, Pos)> {
    match best_my_container_idx(w.structures@, w.sources@[i].pos) {
        Some(c) => {
            let spot = w.structures@[c].pos;
            if spec_spot_occupied(w.peers@, spot, unit.pos) {
                None
            } else {
                Some((w.sources@[i].id, spot))
            }
        },
        None => None,
    }
}

/// Index of the first source offering a free spot, within the prefix.
pub open spec fn first_spot_before(w: WorldSnapshot, unit: Unit, p: int) -> Option<int>
    decreases p,
{
    if p <= 0 {
        None
    } else {
        let prev = first_spot_before(w, unit, p - 1);
        if prev is Some {
            prev
        } else if 0 <= p - 1 < w.sources@.len() && spec_spot_at(w, unit, p - 1) is Some {
            Some(p - 1)
        } else {
            None
        }
    }
}

/// The first source with a free harvesting spot, and that spot.
pub open spec fn spec_pick_closest_spot(w: WorldSnapshot, unit: Unit) -> Option<(u64, Pos)> {
    match first_spot_before(w, unit, w.sources@.len() as int) {
        Some(i) => spec_spot_at(w, unit, i),
        None => None,
    }
}

/// A spot found in a prefix stands for the whole list.
proof fn lemma_first_spot_extends(w: WorldSnapshot, unit: Unit, p: int)
    requires
        0 <= p <= w.sources@.len(),
        first_spot_before(w, unit, p) is Some,
    ensures
        first_spot_before(w, unit, w.sources@.len() as int) == first_spot_before(w, unit, p),
    decreases w.sources@.len() - p,
{
    if p < w.sources@.len() {
        lemma_first_spot_extends(w, unit, p + 1);
    }
}

/// Picks the first source whose container tile is free, and that tile.
pub fn pick_closest_spot(unit: &Unit, w: &WorldSnapshot) -> (r: Option<(u64, Pos)>)
    ensures
        r == spec_pick_closest_spot(*w, *unit),
{
    let n = w.sources.len();
    let mut i: usize = 0;
    while i < n
        invariant
            n == w.sources@.len(),
            0 <= i <= n,
            first_spot_before(*w, *unit, i as int) is None,
        decreases n - i,
    {
        match find_closest_container_from_source(&w.structures, w.sources[i].pos) {
            Some(c) => {
                if !spot_occupied(&w.peers, c.pos, unit.pos) {
                    proof {
                        assert(spec_spot_at(*w, *unit, i as int) == Some(
                            (w.sources@[i as int].id, c.pos),
                        ));
                        assert(first_spot_before(*w, *unit, i as int + 1) == Some(i as int));
                        lemma_first_spot_extends(*w, *unit, i as int + 1);
                    }
                    return Some((w.sources[i].id, c.pos));
                }
            },
            None => {},
        }
        proof {
            assert(spec_spot_at(*w, *unit, i as int) is None);
            assert(first_spot_before(*w, *unit, i as int + 1) is None);
        }
        i += 1;
    }
    None
}

/// One harvester tick: walk onto the chosen container tile, harvest once
/// standing on it, and do nothing when no spot is free.
pub open spec fn spec_harvester_run(unit: Unit, w: WorldSnapshot) -> Option<Action> {
    match spec_pick_closest_spot(w, unit) {
        Some((source_id, spot)) => if unit.pos == spot {
            Some(Action::HarvestFrom(source_id))
        } else {
            Some(Action::MoveToPos(spot))
        },
        None => None,
    }
}

/// Runs one harvester tick.
pub fn harvester_run(unit: &Unit, w: &WorldSnapshot) -> (r: Option<Action>)
    ensures
        r == spec_harvester_run(*unit, *w),
{
    match pick_closest_spot(unit, w) {
        Some((source_id, spot)) => {
            if unit.pos.is_equal_to(&spot) {
                Some(Action::HarvestFrom(source_id))
            } else {
                Some(Action::MoveToPos(spot))
            }
        },
        None => None,
    }
}

} // verus!
