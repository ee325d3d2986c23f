//! The read-only world snapshot a tick works on, and the unit state.
//!
//! The host freezes the world for the duration of a tick and hands the core
//! plain values: entity identities, positions, stores and hit points. Path
//! data (`reachable`, `path_cost`) is computed by the host from the position
//! of the unit the snapshot was prepared for; the tower logic reads only
//! fields that do not depend on that origin.
//!
//! Every identity inside a task must be re-resolved against the snapshot each
//! tick; an identity that no longer appears has gone stale.

use vstd::prelude::*;

use crate::geom::Pos;
use crate::roles::Role;
use crate::task::StructureKind;

verus! {

/// An energy source.
#[derive(Clone, Copy, PartialEq, Eq, Structural, Debug)]
pub struct SourceView {
    pub id: u64,
    pub pos: Pos,
    /// Whether the source currently offers energy.
    pub active: bool,
    /// Whether a path from the unit to the source exists this tick.
    pub reachable: bool,
    /// Length of that path; meaningful only when `reachable` holds.
    pub path_cost: u32,
}

/// A structure, friendly or not.
#[derive(Clone, Copy, PartialEq, Eq, Structural, Debug)]
pub struct StructureView {
    pub id: u64,
    pub kind: StructureKind,
    pub pos: Pos,
    /// Current hit points.
    pub hits: u32,
    /// Maximum hit points.
    pub hits_max: u32,
    /// Whether the host exposes the structure as damageable.
    pub attackable: bool,
    /// Whether the structure belongs to the player.
    pub my: bool,
    /// Free room for energy as the host reports it; may be negative.
    pub free_energy: i32,
    /// Energy currently stored.
    pub used_energy: u32,
    /// Total energy capacity.
    pub capacity: u32,
}

/// A construction site.
#[derive(Clone, Copy, PartialEq, Eq, Structural, Debug)]
pub struct SiteView {
    pub id: u64,
    pub pos: Pos,
    /// The kind of structure the site will become.
    pub kind: StructureKind,
    /// Whether a path from the unit to the site exists this tick.
    pub reachable: bool,
    /// Length of that path; meaningful only when `reachable` holds.
    pub path_cost: u32,
}

/// A dropped resource lying on the ground.
#[derive(Clone, Copy, PartialEq, Eq, Structural, Debug)]
pub struct DroppedView {
    pub id: u64,
    pub pos: Pos,
    /// Whether a path from the unit to the drop exists this tick.
    pub reachable: bool,
    /// Length of that path; meaningful only when `reachable` holds.
    pub path_cost: u32,
}

/// A friendly peer unit, for hand-offs and occupancy checks.
#[derive(Clone, Copy, PartialEq, Eq, Structural, Debug)]
pub struct PeerView {
    pub id: u64,
    pub pos: Pos,
    /// Energy the peer carries.
    pub carried: u32,
    /// The peer's carrying capacity.
    pub capacity: u32,
    /// The peer's cached role.
    pub role: Role,
}

/// One tick's frozen view of the room.
pub struct WorldSnapshot {
    pub sources: Vec<SourceView>,
    pub structures: Vec<StructureView>,
    pub sites: Vec<SiteView>,
    pub dropped: Vec<DroppedView>,
    /// Identities of hostile units present in the room.
    pub hostiles: Vec<u64>,
    /// Friendly peer units in the room.
    pub peers: Vec<PeerView>,
    /// Number of live friendly units this tick.
    pub unit_count: u32,
}

pub open spec fn distinct_source_ids(s: Seq<SourceView>) -> bool {
    forall|i: int, j: int| 0 <= i < j < s.len() ==> s[i].id != s[j].id
}

pub open spec fn distinct_structure_ids(s: Seq<StructureView>) -> bool {
    forall|i: int, j: int| 0 <= i < j < s.len() ==> s[i].id != s[j].id
}

pub open spec fn distinct_site_ids(s: Seq<SiteView>) -> bool {
    forall|i: int, j: int| 0 <= i < j < s.len() ==> s[i].id != s[j].id
}

pub open spec fn distinct_dropped_ids(s: Seq<DroppedView>) -> bool {
    forall|i: int, j: int| 0 <= i < j < s.len() ==> s[i].id != s[j].id
}

pub open spec fn distinct_peer_ids(s: Seq<PeerView>) -> bool {
    forall|i: int, j: int| 0 <= i < j < s.len() ==> s[i].id != s[j].id
}

impl WorldSnapshot {
    /// A well-formed snapshot names each entity once per category.
    pub open spec fn wf(self) -> bool {
        &&& distinct_source_ids(self.sources@)
        &&& distinct_structure_ids(self.structures@)
        &&& distinct_site_ids(self.sites@)
        &&& distinct_dropped_ids(self.dropped@)
        &&& distinct_peer_ids(self.peers@)
    }
}

/// The source this identity resolves to, if it still exists.
pub open spec fn spec_lookup_source(s: Seq<SourceView>, id: u64) -> Option<SourceView> {
    if exists|i: int| 0 <= i < s.len() && s[i].id == id {
        Some(s[choose|i: int| 0 <= i < s.len() && s[i].id == id])
    } else {
        None
    }
}

/// The structure this identity resolves to, if it still exists.
pub open spec fn spec_lookup_structure(s: Seq<StructureView>, id: u64) -> Option<StructureView> {
    if exists|i: int| 0 <= i < s.len() && s[i].id == id {
        Some(s[choose|i: int| 0 <= i < s.len() && s[i].id == id])
    } else {
        None
    }
}

/// The construction site this identity resolves to, if it still exists.
pub open spec fn spec_lookup_site(s: Seq<SiteView>, id: u64) -> Option<SiteView> {
    if exists|i: int| 0 <= i < s.len() && s[i].id == id {
        Some(s[choose|i: int| 0 <= i < s.len() && s[i].id == id])
    } else {
        None
    }
}

/// The dropped resource this identity resolves to, if it still exists.
pub open spec fn spec_lookup_dropped(s: Seq<DroppedView>, id: u64) -> Option<DroppedView> {
    if exists|i: int| 0 <= i < s.len() && s[i].id == id {
        Some(s[choose|i: int| 0 <= i < s.len() && s[i].id == id])
    } else {
        None
    }
}

/// The peer unit this identity resolves to, if it still exists.
pub open spec fn spec_lookup_peer(s: Seq<PeerView>, id: u64) -> Option<PeerView> {
    if exists|i: int| 0 <= i < s.len() && s[i].id == id {
        Some(s[choose|i: int| 0 <= i < s.len() && s[i].id == id])
    } else {
        None
    }
}

impl WorldSnapshot {
    /// Re-resolves a source identity against this snapshot.
    pub fn lookup_source(&self, id: u64) -> (r: Option<SourceView>)
        requires
            self.wf(),
        ensures
            r == spec_lookup_source(self.sources@, id),
    {
        let n = self.sources.len();
        let mut i: usize = 0;
        while i < n
            invariant
                n == self.sources@.len(),
                0 <= i <= n,
                distinct_source_ids(self.sources@),
                forall|j: int| 0 <= j < i ==> self.sources@[j].id != id,
            decreases n - i,
        {
            if self.sources[i].id == id {
                proof {
                    let w = choose|w: int|
                        0 <= w < self.sources@.len() && self.sources@[w].id == id;
                    if w != i {
                        assert(self.sources@[if w < i {
                            w
                        } else {
                            i as int
                        }].id != self.sources@[if w < i {
                            i as int
                        } else {
                            w
                        }].id);
                    }
                }
                return Some(self.sources[i]);
            }
            i += 1;
        }
        None
    }

    /// Re-resolves a structure identity against this snapshot.
    pub fn lookup_structure(&self, id: u64) -> (r: Option<StructureView>)
        requires
            self.wf(),
        ensures
            r == spec_lookup_structure(self.structures@, id),
    {
        let n = self.structures.len();
        let mut i: usize = 0;
        while i < n
            invariant
                n == self.structures@.len(),
                0 <= i <= n,
                distinct_structure_ids(self.structures@),
                forall|j: int| 0 <= j < i ==> self.structures@[j].id != id,
            decreases n - i,
        {
            if self.structures[i].id == id {
                proof {
                    let w = choose|w: int|
                        0 <= w < self.structures@.len() && self.structures@[w].id == id;
                    if w != i {
                        assert(self.structures@[if w < i {
                            w
                        } else {
                            i as int
                        }].id != self.structures@[if w < i {
                            i as int
                        } else {
                            w
                        }].id);
                    }
                }
                return Some(self.structures[i]);
            }
            i += 1;
        }
        None
    }

    /// Re-resolves a construction-site identity against this snapshot.
    pub fn lookup_site(&self, id: u64) -> (r: Option<SiteView>)
        requires
            self.wf(),
        ensures
            r == spec_lookup_site(self.sites@, id),
    {
        let n = self.sites.len();
        let mut i: usize = 0;
        while i < n
            invariant
                n == self.sites@.len(),
                0 <= i <= n,
                distinct_site_ids(self.sites@),
                forall|j: int| 0 <= j < i ==> self.sites@[j].id != id,
            decreases n - i,
        {
            if self.sites[i].id == id {
                proof {
                    let w = choose|w: int| 0 <= w < self.sites@.len() && self.sites@[w].id == id;
                    if w != i {
                        assert(self.sites@[if w < i {
                            w
                        } else {
                            i as int
                        }].id != self.sites@[if w < i {
                            i as int
                        } else {
                            w
                        }].id);
                    }
                }
                return Some(self.sites[i]);
            }
            i += 1;
        }
        None
    }

    /// Re-resolves a dropped-resource identity against this snapshot.
    pub fn lookup_dropped(&self, id: u64) -> (r: Option<DroppedView>)
        requires
            self.wf(),
        ensures
            r == spec_lookup_dropped(self.dropped@, id),
    {
        let n = self.dropped.len();
        let mut i: usize = 0;
        while i < n
            invariant
                n == self.dropped@.len(),
                0 <= i <= n,
                distinct_dropped_ids(self.dropped@),
                forall|j: int| 0 <= j < i ==> self.dropped@[j].id != id,
            decreases n - i,
        {
            if self.dropped[i].id == id {
                proof {
                    let w = choose|w: int|
                        0 <= w < self.dropped@.len() && self.dropped@[w].id == id;
                    if w != i {
                        assert(self.dropped@[if w < i {
                            w
                        } else {
                            i as int
                        }].id != self.dropped@[if w < i {
                            i as int
                        } else {
                            w
                        }].id);
                    }
                }
                return Some(self.dropped[i]);
            }
            i += 1;
        }
        None
    }

    /// Re-resolves a peer identity against this snapshot.
    pub fn lookup_peer(&self, id: u64) -> (r: Option<PeerView>)
        requires
            self.wf(),
        ensures
            r == spec_lookup_peer(self.peers@, id),
    {
        let n = self.peers.len();
        let mut i: usize = 0;
        while i < n
            invariant
                n == self.peers@.len(),
                0 <= i <= n,
                distinct_peer_ids(self.peers@),
                forall|j: int| 0 <= j < i ==> self.peers@[j].id != id,
            decreases n - i,
        {
            if self.peers[i].id == id {
                proof {
                    let w = choose|w: int| 0 <= w < self.peers@.len() && self.peers@[w].id == id;
                    if w != i {
                        assert(self.peers@[if w < i {
                            w
                        } else {
                            i as int
                        }].id != self.peers@[if w < i {
                            i as int
                        } else {
                            w
                        }].id);
                    }
                }
                return Some(self.peers[i]);
            }
            i += 1;
        }
        None
    }
}

/// The state of the unit a tick is deciding for.
#[derive(Clone, Copy, PartialEq, Eq, Structural, Debug)]
pub struct Unit {
    pub id: u64,
    pub pos: Pos,
    /// Energy the unit carries.
    pub carried: u32,
    /// The unit's carrying capacity.
    pub capacity: u32,
    /// Whether the unit is still being spawned and must be skipped.
    pub spawning: bool,
    /// The unit's cached role.
    pub role: Role,
}

impl Unit {
    /// A unit carries no more than its capacity.
    pub open spec fn wf(self) -> bool {
        self.carried <= self.capacity
    }

    /// Free room in the unit's store.
    pub open spec fn spec_free(self) -> int {
        self.capacity - self.carried
    }

    /// A fresh wrapper around host state; the role starts as the neutral
    /// tag until `set_role` installs a cached one.
    pub fn new(id: u64, pos: Pos, carried: u32, capacity: u32, spawning: bool) -> (u: Unit)
        requires
            carried <= capacity,
        ensures
            u == (Unit { id, pos, carried, capacity, spawning, role: Role::General }),
    {
        Unit { id, pos, carried, capacity, spawning, role: Role::General }
    }

    /// Installs a cached role; a missing one falls back to the neutral tag.
    pub fn set_role(&mut self, role: Option<Role>)
        ensures
            *final(self) == (Unit {
                role: if role is Some {
                    role->0
                } else {
                    Role::General
                },
                ..*old(self)
            }),
    {
        if let Some(r) = role {
            self.role = r;
        } else {
            self.role = Role::General;
        }
    }

    /// The unit's cached role.
    pub fn role(&self) -> (r: &Role)
        ensures
            *r == self.role,
    {
        &self.role
    }

    /// Free room in the unit's store.
    pub fn free_capacity(&self) -> (r: u32)
        requires
            self.wf(),
        ensures
            r == self.spec_free(),
    {
        self.capacity - self.carried
    }
}

} // verus!
