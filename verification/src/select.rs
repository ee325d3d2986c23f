//! Target selection over the snapshot: the reduce-to-best passes the policy
//! and the defense loop use to pick sources, deposits, repair targets and
//! hand-off peers.
//!
//! Each selection is specified as a fold over the snapshot list, so that a
//! caller's contract can name the exact element chosen, including which of
//! two equally good candidates wins.

use vstd::prelude::*;

use crate::geom::{spec_range, Pos};
use crate::task::StructureKind;
use crate::world::{DroppedView, PeerView, SiteView, SourceView, StructureView, WorldSnapshot};

verus! {

/// A source a unit can go gather from: it offers energy and a path exists.
pub open spec fn is_candidate_source(v: SourceView) -> bool {
    v.active && v.reachable
}

/// Index of the reachable active source with the shortest path; the earliest
/// wins a tie.
pub open spec fn best_source_idx(s: Seq<SourceView>) -> Option<int>
    decreases s.len(),
{
    if s.len() == 0 {
        None
    } else {
        let i = s.len() - 1;
        let prev = best_source_idx(s.drop_last());
        if is_candidate_source(s[i]) {
            match prev {
                Option::None => Some(i),
                Option::Some(j) => if s[i].path_cost < s[j].path_cost {
                    Some(i)
                } else {
                    Some(j)
                },
            }
        } else {
            prev
        }
    }
}

/// The nearest reachable active source, by path distance.
pub fn pick_closest_energy_source(w: &WorldSnapshot) -> (r: Option<SourceView>)
    ensures
        match best_source_idx(w.sources@) {
            Some(i) => r == Some(w.sources@[i]),
            None => r is None,
        },
{
    let s = &w.sources;
    let n = s.len();
    let mut best: Option<usize> = None;
    let mut i: usize = 0;
    while i < n
        invariant
            n == s@.len(),
            0 <= i <= n,
            match best {
                Some(b) => b < i && best_source_idx(s@.take(i as int)) == Some(b as int),
                None => best_source_idx(s@.take(i as int)) is None,
            },
        decreases n - i,
    {
        proof {
            assert(s@.take(i as int + 1).drop_last() =~= s@.take(i as int));
            assert(s@.take(i as int + 1).last() == s@[i as int]);
            assert(forall|j: int| 0 <= j < i + 1 ==> s@.take(i as int + 1)[j] == s@[j]);
        }
        if s[i].active && s[i].reachable {
            match best {
                None => {
                    best = Some(i);
                },
                Some(b) => {
                    if s[i].path_cost < s[b].path_cost {
                        best = Some(i);
                    }
                },
            }
        }
        i += 1;
    }
    proof {
        assert(s@.take(n as int) =~= s@);
    }
    match best {
        Some(b) => Some(s[b]),
        None => None,
    }
}

/// What the chosen source is best at: it is a candidate, no candidate has a
/// shorter path, and no earlier candidate ties it.
pub proof fn lemma_best_source_characterization(s: Seq<SourceView>)
    ensures
        match best_source_idx(s) {
            Some(i) => {
                &&& 0 <= i < s.len()
                &&& is_candidate_source(s[i])
                &&& forall|j: int|
                    0 <= j < s.len() && is_candidate_source(s[j]) ==> s[i].path_cost
                        <= s[j].path_cost
                &&& forall|j: int|
                    0 <= j < i && is_candidate_source(s[j]) ==> s[i].path_cost < s[j].path_cost
            },
            None => forall|j: int| 0 <= j < s.len() ==> !is_candidate_source(s[j]),
        },
    decreases s.len(),
{
    if s.len() > 0 {
        lemma_best_source_characterization(s.drop_last());
        assert(forall|j: int| 0 <= j < s.len() - 1 ==> s.drop_last()[j] == s[j]);
    }
}

/// A dropped resource worth walking to: a path exists.
pub open spec fn is_candidate_dropped(v: DroppedView) -> bool {
    v.reachable
}

/// Index of the reachable drop with the shortest path; the earliest wins a
/// tie.
pub open spec fn best_dropped_idx(s: Seq<DroppedView>) -> Option<int>
    decreases s.len(),
{
    if s.len() == 0 {
        None
    } else {
        let i = s.len() - 1;
        let prev = best_dropped_idx(s.drop_last());
        if is_candidate_dropped(s[i]) {
            match prev {
                Option::None => Some(i),
                Option::Some(j) => if s[i].path_cost < s[j].path_cost {
                    Some(i)
                } else {
                    Some(j)
                },
            }
        } else {
            prev
        }
    }
}

/// The nearest reachable dropped resource, by path distance.
pub fn nearest_dropped(w: &WorldSnapshot) -> (r: Option<DroppedView>)
    ensures
        match best_dropped_idx(w.dropped@) {
            Some(i) => r == Some(w.dropped@[i]),
            None => r is None,
        },
{
    let s = &w.dropped;
    let n = s.len();
    let mut best: Option<usize> = None;
    let mut i: usize = 0;
    while i < n
        invariant
            n == s@.len(),
            0 <= i <= n,
            match best {
                Some(b) => b < i && best_dropped_idx(s@.take(i as int)) == Some(b as int),
                None => best_dropped_idx(s@.take(i as int)) is None,
            },
        decreases n - i,
    {
        proof {
            assert(s@.take(i as int + 1).drop_last() =~= s@.take(i as int));
            assert(s@.take(i as int + 1).last() == s@[i as int]);
            assert(forall|j: int| 0 <= j < i + 1 ==> s@.take(i as int + 1)[j] == s@[j]);
        }
        if s[i].reachable {
            match best {
                None => {
                    best = Some(i);
                },
                Some(b) => {
                    if s[i].path_cost < s[b].path_cost {
                        best = Some(i);
                    }
                },
            }
        }
        i += 1;
    }
    proof {
        assert(s@.take(n as int) =~= s@);
    }
    match best {
        Some(b) => Some(s[b]),
        None => None,
    }
}

/// A construction site worth walking to: a path exists.
pub open spec fn is_candidate_site(v: SiteView) -> bool {
    v.reachable
}

/// Index of the reachable site with the shortest path; the earliest wins a
/// tie.
pub open spec fn best_site_idx(s: Seq<SiteView>) -> Option<int>
    decreases s.len(),
{
    if s.len() == 0 {
        None
    } else {
        let i = s.len() - 1;
        let prev = best_site_idx(s.drop_last());
        if is_candidate_site(s[i]) {
            match prev {
                Option::None => Some(i),
                Option::Some(j) => if s[i].path_cost < s[j].path_cost {
                    Some(i)
                } else {
                    Some(j)
                },
            }
        } else {
            prev
        }
    }
}

/// The nearest reachable construction site, by path distance.
pub fn nearest_site(w: &WorldSnapshot) -> (r: Option<SiteView>)
    ensures
        match best_site_idx(w.sites@) {
            Some(i) => r == Some(w.sites@[i]),
            None => r is None,
        },
{
    let s = &w.sites;
    let n = s.len();
    let mut best: Option<usize> = None;
    let mut i: usize = 0;
    while i < n
        invariant
            n == s@.len(),
            0 <= i <= n,
            match best {
                Some(b) => b < i && best_site_idx(s@.take(i as int)) == Some(b as int),
                None => best_site_idx(s@.take(i as int)) is None,
            },
        decreases n - i,
    {
        proof {
            assert(s@.take(i as int + 1).drop_last() =~= s@.take(i as int));
            assert(s@.take(i as int + 1).last() == s@[i as int]);
            assert(forall|j: int| 0 <= j < i + 1 ==> s@.take(i as int + 1)[j] == s@[j]);
        }
        if s[i].reachable {
            match best {
                None => {
                    best = Some(i);
                },
                Some(b) => {
                    if s[i].path_cost < s[b].path_cost {
                        best = Some(i);
                    }
                },
            }
        }
        i += 1;
    }
    proof {
        assert(s@.take(n as int) =~= s@);
    }
    match best {
        Some(b) => Some(s[b]),
        None => None,
    }
}

/// An extension of the player's with room for energy, optionally excluding
/// one identity (the extension a deposit just finished at).
pub open spec fn is_unfilled_extension(v: StructureView, exclude: Option<u64>) -> bool {
    &&& v.my
    &&& v.kind == StructureKind::Extension
    &&& v.free_energy > 0
    &&& match exclude {
        Some(x) => v.id != x,
        None => true,
    }
}

/// Index of the closest unfilled extension, by board range from `from`; the
/// earliest wins a tie.
pub open spec fn best_extension_idx(s: Seq<StructureView>, from: Pos, exclude: Option<u64>) -> Option<
    int,
>
    decreases s.len(),
{
    if s.len() == 0 {
        None
    } else {
        let i = s.len() - 1;
        let prev = best_extension_idx(s.drop_last(), from, exclude);
        if is_unfilled_extension(s[i], exclude) {
            match prev {
                Option::None => Some(i),
                Option::Some(j) => if spec_range(s[i].pos, from) < spec_range(s[j].pos, from) {
                    Some(i)
                } else {
                    Some(j)
                },
            }
        } else {
            prev
        }
    }
}

/// The nearest extension of the player's that still has room, excluding at
/// most one identity.
pub fn find_unfilled_extension_excluding(
    structures: &Vec<StructureView>,
    from: Pos,
    exclude: Option<u64>,
) -> (r: Option<StructureView>)
    ensures
        match best_extension_idx(structures@, from, exclude) {
            Some(i) => r == Some(structures@[i]),
            None => r is None,
        },
{
    let s = structures;
    let n = s.len();
    let mut best: Option<usize> = None;
    let mut i: usize = 0;
    while i < n
        invariant
            n == s@.len(),
            0 <= i <= n,
            match best {
                Some(b) => b < i && best_extension_idx(s@.take(i as int), from, exclude) == Some(
                    b as int,
                ),
                None => best_extension_idx(s@.take(i as int), from, exclude) is None,
            },
        decreases n - i,
    {
        proof {
            assert(s@.take(i as int + 1).drop_last() =~= s@.take(i as int));
            assert(s@.take(i as int + 1).last() == s@[i as int]);
            assert(forall|j: int| 0 <= j < i + 1 ==> s@.take(i as int + 1)[j] == s@[j]);
        }
        let excluded = match exclude {
            Some(x) => s[i].id == x,
            None => false,
        };
        if s[i].my && s[i].kind == StructureKind::Extension && s[i].free_energy > 0 && !excluded {
            match best {
                None => {
                    best = Some(i);
                },
                Some(b) => {
                    if s[i].pos.range_to(&from) < s[b].pos.range_to(&from) {
                        best = Some(i);
                    }
                },
            }
        }
        i += 1;
    }
    proof {
        assert(s@.take(n as int) =~= s@);
    }
    match best {
        Some(b) => Some(s[b]),
        None => None,
    }
}

/// The nearest extension of the player's that still has room.
pub fn find_unfilled_extension(structures: &Vec<StructureView>, from: Pos) -> (r: Option<
    StructureView,
>)
    ensures
        match best_extension_idx(structures@, from, None) {
            Some(i) => r == Some(structures@[i]),
            None => r is None,
        },
{
    find_unfilled_extension_excluding(structures, from, None)
}

/// What the chosen extension is best at: it is unfilled and not excluded, no
/// such extension is closer, and no earlier one ties it.
pub proof fn lemma_best_extension_characterization(
    s: Seq<StructureView>,
    from: Pos,
    exclude: Option<u64>,
)
    ensures
        match best_extension_idx(s, from, exclude) {
            Some(i) => {
                &&& 0 <= i < s.len()
                &&& is_unfilled_extension(s[i], exclude)
                &&& forall|j: int|
                    0 <= j < s.len() && is_unfilled_extension(s[j], exclude) ==> spec_range(
                        s[i].pos,
                        from,
                    ) <= spec_range(s[j].pos, from)
            },
            None => forall|j: int| 0 <= j < s.len() ==> !is_unfilled_extension(s[j], exclude),
        },
    decreases s.len(),
{
    if s.len() > 0 {
        lemma_best_extension_characterization(s.drop_last(), from, exclude);
        assert(forall|j: int| 0 <= j < s.len() - 1 ==> s.drop_last()[j] == s[j]);
    }
}

/// A spawn of the player's with room for energy.
pub open spec fn is_spawn_with_free(v: StructureView) -> bool {
    v.my && v.kind == StructureKind::Spawn && v.free_energy > 0
}

/// Index of the last spawn with room, matching the host iterator's `last`.
pub open spec fn last_spawn_idx(s: Seq<StructureView>) -> Option<int>
    decreases s.len(),
{
    if s.len() == 0 {
        None
    } else {
        let i = s.len() - 1;
        if is_spawn_with_free(s[i]) {
            Some(i)
        } else {
            last_spawn_idx(s.drop_last())
        }
    }
}

/// The last spawn of the player's that still has room.
pub fn find_spawn_with_free(structures: &Vec<StructureView>) -> (r: Option<StructureView>)
    ensures
        match last_spawn_idx(structures@) {
            Some(i) => r == Some(structures@[i]),
            None => r is None,
        },
{
    let s = structures;
    let n = s.len();
    let mut best: Option<usize> = None;
    let mut i: usize = 0;
    while i < n
        invariant
            n == s@.len(),
            0 <= i <= n,
            match best {
                Some(b) => b < i && last_spawn_idx(s@.take(i as int)) == Some(b as int),
                None => last_spawn_idx(s@.take(i as int)) is None,
            },
        decreases n - i,
    {
        proof {
            assert(s@.take(i as int + 1).drop_last() =~= s@.take(i as int));
            assert(s@.take(i as int + 1).last() == s@[i as int]);
            assert(forall|j: int| 0 <= j < i + 1 ==> s@.take(i as int + 1)[j] == s@[j]);
        }
        if s[i].my && s[i].kind == StructureKind::Spawn && s[i].free_energy > 0 {
            best = Some(i);
        }
        i += 1;
    }
    proof {
        assert(s@.take(n as int) =~= s@);
    }
    match best {
        Some(b) => Some(s[b]),
        None => None,
    }
}

/// How much room a tower must keep free before it is offered a deposit.
pub const TOWER_FREE_RESERVE: u32 = 150;

/// A tower of the player's missing more than the reserve amount.
pub open spec fn is_tower_candidate(v: StructureView) -> bool {
    v.my && v.kind == StructureKind::Tower && v.free_energy > TOWER_FREE_RESERVE as int
}

/// Index of the candidate tower missing the least energy; the earliest wins
/// a tie.
pub open spec fn best_tower_idx(s: Seq<StructureView>) -> Option<int>
    decreases s.len(),
{
    if s.len() == 0 {
        None
    } else {
        let i = s.len() - 1;
        let prev = best_tower_idx(s.drop_last());
        if is_tower_candidate(s[i]) {
            match prev {
                Option::None => Some(i),
                Option::Some(j) => if s[i].free_energy < s[j].free_energy {
                    Some(i)
                } else {
                    Some(j)
                },
            }
        } else {
            prev
        }
    }
}

/// The tower of the player's most worth topping up: missing more than the
/// reserve, and among those the one missing least.
pub fn find_tower(structures: &Vec<StructureView>) -> (r: Option<StructureView>)
    ensures
        match best_tower_idx(structures@) {
            Some(i) => r == Some(structures@[i]),
            None => r is None,
        },
{
    let s = structures;
    let n = s.len();
    let mut best: Option<usize> = None;
    let mut i: usize = 0;
    while i < n
        invariant
            n == s@.len(),
            0 <= i <= n,
            match best {
                Some(b) => b < i && best_tower_idx(s@.take(i as int)) == Some(b as int),
                None => best_tower_idx(s@.take(i as int)) is None,
            },
        decreases n - i,
    {
        proof {
            assert(s@.take(i as int + 1).drop_last() =~= s@.take(i as int));
            assert(s@.take(i as int + 1).last() == s@[i as int]);
            assert(forall|j: int| 0 <= j < i + 1 ==> s@.take(i as int + 1)[j] == s@[j]);
        }
        if s[i].my && s[i].kind == StructureKind::Tower && s[i].free_energy > TOWER_FREE_RESERVE
            as i32 {
            match best {
                None => {
                    best = Some(i);
                },
                Some(b) => {
                    if s[i].free_energy < s[b].free_energy {
                        best = Some(i);
                    }
                },
            }
        }
        i += 1;
    }
    proof {
        assert(s@.take(n as int) =~= s@);
    }
    match best {
        Some(b) => Some(s[b]),
        None => None,
    }
}

/// A structure worth repairing: damageable, not the controller, and below a
/// third of its maximum hit points.
pub open spec fn is_repair_candidate(v: StructureView) -> bool {
    v.attackable && v.kind != StructureKind::Controller && v.hits < v.hits_max / 3
}

/// Index of the repair candidate with the fewest absolute hit points; the
/// earliest wins a tie.
pub open spec fn best_repair_idx(s: Seq<StructureView>) -> Option<int>
    decreases s.len(),
{
    if s.len() == 0 {
        None
    } else {
        let i = s.len() - 1;
        let prev = best_repair_idx(s.drop_last());
        if is_repair_candidate(s[i]) {
            match prev {
                Option::None => Some(i),
                Option::Some(j) => if s[i].hits < s[j].hits {
                    Some(i)
                } else {
                    Some(j)
                },
            }
        } else {
            prev
        }
    }
}

/// The most damaged structure worth repairing, by absolute hit points.
pub fn lowest_hits_damaged(structures: &Vec<StructureView>) -> (r: Option<StructureView>)
    ensures
        match best_repair_idx(structures@) {
            Some(i) => r == Some(structures@[i]),
            None => r is None,
        },
{
    let s = structures;
    let n = s.len();
    let mut best: Option<usize> = None;
    let mut i: usize = 0;
    while i < n
        invariant
            n == s@.len(),
            0 <= i <= n,
            match best {
                Some(b) => b < i && best_repair_idx(s@.take(i as int)) == Some(b as int),
                None => best_repair_idx(s@.take(i as int)) is None,
            },
        decreases n - i,
    {
        proof {
            assert(s@.take(i as int + 1).drop_last() =~= s@.take(i as int));
            assert(s@.take(i as int + 1).last() == s@[i as int]);
            assert(forall|j: int| 0 <= j < i + 1 ==> s@.take(i as int + 1)[j] == s@[j]);
        }
        if s[i].attackable && s[i].kind != StructureKind::Controller && s[i].hits < s[i].hits_max
            / 3 {
            match best {
                None => {
                    best = Some(i);
                },
                Some(b) => {
                    if s[i].hits < s[b].hits {
                        best = Some(i);
                    }
                },
            }
        }
        i += 1;
    }
    proof {
        assert(s@.take(n as int) =~= s@);
    }
    match best {
        Some(b) => Some(s[b]),
        None => None,
    }
}

/// What the chosen repair target is best at: it is a candidate and none has
/// fewer hit points.
pub proof fn lemma_best_repair_characterization(s: Seq<StructureView>)
    ensures
        match best_repair_idx(s) {
            Some(i) => {
                &&& 0 <= i < s.len()
                &&& is_repair_candidate(s[i])
                &&& forall|j: int|
                    0 <= j < s.len() && is_repair_candidate(s[j]) ==> s[i].hits <= s[j].hits
            },
            None => forall|j: int| 0 <= j < s.len() ==> !is_repair_candidate(s[j]),
        },
    decreases s.len(),
{
    if s.len() > 0 {
        lemma_best_repair_characterization(s.drop_last());
        assert(forall|j: int| 0 <= j < s.len() - 1 ==> s.drop_last()[j] == s[j]);
    }
}

/// Index of the first structure of a kind; `my_only` restricts the search to
/// the player's structures.
pub open spec fn first_kind_idx(s: Seq<StructureView>, kind: StructureKind, my_only: bool) -> Option<
    int,
>
    decreases s.len(),
{
    if s.len() == 0 {
        None
    } else {
        let i = s.len() - 1;
        let prev = first_kind_idx(s.drop_last(), kind, my_only);
        if prev is Some {
            prev
        } else if s[i].kind == kind && (!my_only || s[i].my) {
            Some(i)
        } else {
            prev
        }
    }
}

/// The first structure of the given kind in the snapshot.
pub fn find_first_of_kind(structures: &Vec<StructureView>, kind: StructureKind, my_only: bool) -> (r:
    Option<StructureView>)
    ensures
        match first_kind_idx(structures@, kind, my_only) {
            Some(i) => r == Some(structures@[i]),
            None => r is None,
        },
{
    let n = structures.len();
    let mut i: usize = 0;
    while i < n
        invariant
            n == structures@.len(),
            0 <= i <= n,
            first_kind_idx(structures@.take(i as int), kind, my_only) is None,
        decreases n - i,
    {
        proof {
            assert(structures@.take(i as int + 1).drop_last() =~= structures@.take(i as int));
            assert(structures@.take(i as int + 1).last() == structures@[i as int]);
        }
        if structures[i].kind == kind && (!my_only || structures[i].my) {
            proof {
                let pre = structures@.take(i as int + 1);
                assert(pre.last() == structures@[i as int]);
                assert(pre[pre.len() - 1].kind == kind && (!my_only || pre[pre.len() - 1].my));
                assert(first_kind_idx(pre, kind, my_only) == Some(i as int));
                lemma_first_kind_extends(structures@, kind, my_only, i as int + 1);
            }
            return Some(structures[i]);
        }
        i += 1;
    }
    proof {
        assert(structures@.take(n as int) =~= structures@);
    }
    None
}

/// A first-match found in a prefix stands for the whole list.
pub proof fn lemma_first_kind_extends(
    s: Seq<StructureView>,
    kind: StructureKind,
    my_only: bool,
    p: int,
)
    requires
        0 <= p <= s.len(),
        first_kind_idx(s.take(p), kind, my_only) is Some,
    ensures
        first_kind_idx(s, kind, my_only) == first_kind_idx(s.take(p), kind, my_only),
    decreases s.len() - p,
{
    if p < s.len() {
        assert(s.take(p + 1).drop_last() =~= s.take(p));
        lemma_first_kind_extends(s, kind, my_only, p + 1);
    } else {
        assert(s.take(p) =~= s);
    }
}

/// A container holding at least this much energy.
pub open spec fn is_container_with(v: StructureView, min_used: u32) -> bool {
    v.kind == StructureKind::Container && v.used_energy >= min_used
}

/// Index of the closest container holding at least `min_used`, by board
/// range from `from`; the earliest wins a tie.
pub open spec fn best_container_idx(s: Seq<StructureView>, from: Pos, min_used: u32) -> Option<int>
    decreases s.len(),
{
    if s.len() == 0 {
        None
    } else {
        let i = s.len() - 1;
        let prev = best_container_idx(s.drop_last(), from, min_used);
        if is_container_with(s[i], min_used) {
            match prev {
                Option::None => Some(i),
                Option::Some(j) => if spec_range(s[i].pos, from) < spec_range(s[j].pos, from) {
                    Some(i)
                } else {
                    Some(j)
                },
            }
        } else {
            prev
        }
    }
}

/// The nearest container holding at least `min_used` energy.
pub fn find_closest_container(structures: &Vec<StructureView>, from: Pos, min_used: u32) -> (r:
    Option<StructureView>)
    ensures
        match best_container_idx(structures@, from, min_used) {
            Some(i) => r == Some(structures@[i]),
            None => r is None,
        },
{
    let s = structures;
    let n = s.len();
    let mut best: Option<usize> = None;
    let mut i: usize = 0;
    while i < n
        invariant
            n == s@.len(),
            0 <= i <= n,
            match best {
                Some(b) => b < i && best_container_idx(s@.take(i as int), from, min_used) == Some(
                    b as int,
                ),
                None => best_container_idx(s@.take(i as int), from, min_used) is None,
            },
        decreases n - i,
    {
        proof {
            assert(s@.take(i as int + 1).drop_last() =~= s@.take(i as int));
            assert(s@.take(i as int + 1).last() == s@[i as int]);
            assert(forall|j: int| 0 <= j < i + 1 ==> s@.take(i as int + 1)[j] == s@[j]);
        }
        if s[i].kind == StructureKind::Container && s[i].used_energy >= min_used {
            match best {
                None => {
                    best = Some(i);
                },
                Some(b) => {
                    if s[i].pos.range_to(&from) < s[b].pos.range_to(&from) {
                        best = Some(i);
                    }
                },
            }
        }
        i += 1;
    }
    proof {
        assert(s@.take(n as int) =~= s@);
    }
    match best {
        Some(b) => Some(s[b]),
        None => None,
    }
}

/// A container of the player's, whatever it holds.
pub open spec fn is_my_container(v: StructureView) -> bool {
    v.my && v.kind == StructureKind::Container
}

/// Index of the player's container closest to `from`, by board range; the
/// earliest wins a tie.
pub open spec fn best_my_container_idx(s: Seq<StructureView>, from: Pos) -> Option<int>
    decreases s.len(),
{
    if s.len() == 0 {
        None
    } else {
        let i = s.len() - 1;
        let prev = best_my_container_idx(s.drop_last(), from);
        if is_my_container(s[i]) {
            match prev {
                Option::None => Some(i),
                Option::Some(j) => if spec_range(s[i].pos, from) < spec_range(s[j].pos, from) {
                    Some(i)
                } else {
                    Some(j)
                },
            }
        } else {
            prev
        }
    }
}

/// The player's container closest to a source's position.
pub fn find_closest_container_from_source(structures: &Vec<StructureView>, source_pos: Pos) -> (r:
    Option<StructureView>)
    ensures
        match best_my_container_idx(structures@, source_pos) {
            Some(i) => r == Some(structures@[i]),
            None => r is None,
        },
{
    let s = structures;
    let n = s.len();
    let mut best: Option<usize> = None;
    let mut i: usize = 0;
    while i < n
        invariant
            n == s@.len(),
            0 <= i <= n,
            match best {
                Some(b) => b < i && best_my_container_idx(s@.take(i as int), source_pos) == Some(
                    b as int,
                ),
                None => best_my_container_idx(s@.take(i as int), source_pos) is None,
            },
        decreases n - i,
    {
        proof {
            assert(s@.take(i as int + 1).drop_last() =~= s@.take(i as int));
            assert(s@.take(i as int + 1).last() == s@[i as int]);
            assert(forall|j: int| 0 <= j < i + 1 ==> s@.take(i as int + 1)[j] == s@[j]);
        }
        if s[i].my && s[i].kind == StructureKind::Container {
            match best {
                None => {
                    best = Some(i);
                },
                Some(b) => {
                    if s[i].pos.range_to(&source_pos) < s[b].pos.range_to(&source_pos) {
                        best = Some(i);
                    }
                },
            }
        }
        i += 1;
    }
    proof {
        assert(s@.take(n as int) =~= s@);
    }
    match best {
        Some(b) => Some(s[b]),
        None => None,
    }
}

/// A peer a hauler hands energy to: a builder whose store is not full.
pub open spec fn is_transfer_peer(v: PeerView) -> bool {
    v.role == crate::roles::Role::Builder && v.carried != v.capacity
}

/// Index of the closest hand-off peer, by board range from `from`; the
/// latest wins a tie, matching the host reduce's bias.
pub open spec fn best_peer_idx(s: Seq<PeerView>, from: Pos) -> Option<int>
    decreases s.len(),
{
    if s.len() == 0 {
        None
    } else {
        let i = s.len() - 1;
        let prev = best_peer_idx(s.drop_last(), from);
        if is_transfer_peer(s[i]) {
            match prev {
                Option::None => Some(i),
                Option::Some(j) => if spec_range(s[i].pos, from) <= spec_range(s[j].pos, from) {
                    Some(i)
                } else {
                    Some(j)
                },
            }
        } else {
            prev
        }
    }
}

/// The closest builder peer that can still take energy.
pub fn find_creep(peers: &Vec<PeerView>, from: Pos) -> (r: Option<PeerView>)
    ensures
        match best_peer_idx(peers@, from) {
            Some(i) => r == Some(peers@[i]),
            None => r is None,
        },
{
    let s = peers;
    let n = s.len();
    let mut best: Option<usize> = None;
    let mut i: usize = 0;
    while i < n
        invariant
            n == s@.len(),
            0 <= i <= n,
            match best {
                Some(b) => b < i && best_peer_idx(s@.take(i as int), from) == Some(b as int),
                None => best_peer_idx(s@.take(i as int), from) is None,
            },
        decreases n - i,
    {
        proof {
            assert(s@.take(i as int + 1).drop_last() =~= s@.take(i as int));
            assert(s@.take(i as int + 1).last() == s@[i as int]);
            assert(forall|j: int| 0 <= j < i + 1 ==> s@.take(i as int + 1)[j] == s@[j]);
        }
        let is_builder = match s[i].role {
            crate::roles::Role::Builder => true,
            _ => false,
        };
        if is_builder && s[i].carried != s[i].capacity {
            match best {
                None => {
                    best = Some(i);
                },
                Some(b) => {
                    if s[i].pos.range_to(&from) <= s[b].pos.range_to(&from) {
                        best = Some(i);
                    }
                },
            }
        }
        i += 1;
    }
    proof {
        assert(s@.take(n as int) =~= s@);
    }
    match best {
        Some(b) => Some(s[b]),
        None => None,
    }
}

} // verus!
