//! In-core state keyed by identity: the task registry for units and the
//! target registry for defensive structures.
//!
//! A registry is a flat list of key/value pairs with pairwise-distinct keys,
//! abstracted as a finite `Map`. Absence of a key is a valid state, not a
//! failure; entries live only for one process run.

use vstd::map::*;
use vstd::prelude::*;

use crate::task::Task;

verus! {

/// Pairwise-distinct keys: no identity appears twice.
pub open spec fn distinct_keys<V>(s: Seq<(u64, V)>) -> bool {
    forall|i: int, j: int| 0 <= i < j < s.len() ==> s[i].0 != s[j].0
}

/// The mapping a pair list denotes. With distinct keys the witness index is
/// unique, so the value picked is the value stored.
pub open spec fn map_of<V>(s: Seq<(u64, V)>) -> Map<u64, V> {
    Map::new(
        |k: u64| exists|i: int| 0 <= i < s.len() && s[i].0 == k,
        |k: u64|
            s[choose|i: int| 0 <= i < s.len() && s[i].0 == k].1,
    )
}

/// Two indices carrying the same key are the same index.
pub proof fn lemma_key_index_unique<V>(s: Seq<(u64, V)>, a: int, b: int)
    requires
        distinct_keys(s),
        0 <= a < s.len(),
        0 <= b < s.len(),
        s[a].0 == s[b].0,
    ensures
        a == b,
{
    if a < b {
        assert(s[a].0 != s[b].0);
    } else if b < a {
        assert(s[b].0 != s[a].0);
    }
}

/// A mapping from identity to a per-identity value, rebuilt from scratch each
/// process run.
pub struct Registry<V> {
    entries: Vec<(u64, V)>,
}

impl<V> View for Registry<V> {
    type V = Map<u64, V>;

    closed spec fn view(&self) -> Map<u64, V> {
        map_of(self.entries@)
    }
}

impl<V> Registry<V> {
    /// The internal pair list has pairwise-distinct keys.
    pub closed spec fn wf(self) -> bool {
        distinct_keys(self.entries@)
    }

    /// An empty registry: no identity has an entry.
    pub fn new() -> (r: Registry<V>)
        ensures
            r.wf(),
            r@ == Map::<u64, V>::empty(),
    {
        let r = Registry { entries: Vec::new() };
        proof {
            assert(r@ =~= Map::<u64, V>::empty());
        }
        r
    }

    /// Looks up the value held for `id`, if any. Yields exactly zero or one
    /// value: the map view makes more than one impossible.
    pub fn get(&self, id: u64) -> (r: Option<&V>)
        requires
            self.wf(),
        ensures
            match r {
                Some(v) => self@.contains_key(id) && *v == self@[id],
                None => !self@.contains_key(id),
            },
    {
        let n = self.entries.len();
        let mut i: usize = 0;
        while i < n
            invariant
                n == self.entries@.len(),
                0 <= i <= n,
                self.wf(),
                forall|j: int| 0 <= j < i ==> self.entries@[j].0 != id,
            decreases n - i,
        {
            if self.entries[i].0 == id {
                proof {
                    let w = choose|w: int|
                        0 <= w < self.entries@.len() && self.entries@[w].0 == id;
                    lemma_key_index_unique(self.entries@, w, i as int);
                }
                return Some(&self.entries[i].1);
            }
            i += 1;
        }
        None
    }

    /// Creates or replaces the entry for `id`.
    pub fn set(&mut self, id: u64, v: V)
        requires
            old(self).wf(),
        ensures
            final(self).wf(),
            final(self)@ == old(self)@.insert(id, v),
    {
        let ghost s0 = self.entries@;
        let n = self.entries.len();
        let mut i: usize = 0;
        while i < n
            invariant
                n == self.entries@.len(),
                0 <= i <= n,
                self.entries@ == s0,
                old(self).entries@ == s0,
                distinct_keys(s0),
                forall|j: int| 0 <= j < i ==> self.entries@[j].0 != id,
            decreases n - i,
        {
            if self.entries[i].0 == id {
                self.entries.set(i, (id, v));
                proof {
                    let s1 = self.entries@;
                    assert(distinct_keys(s1)) by {
                        assert(forall|a: int, b: int|
                            0 <= a < b < s1.len() ==> s1[a].0 == s0[a].0 && s1[b].0 == s0[b].0);
                    }
                    assert_maps_equal!(map_of(s1), map_of(s0).insert(id, v), k => {
                        if k == id {
                            assert(s1[i as int].0 == id);
                            if map_of(s1).contains_key(k) {
                                let w = choose|w: int| 0 <= w < s1.len() && s1[w].0 == k;
                                lemma_key_index_unique(s1, w, i as int);
                            }
                        } else {
                            if map_of(s0).contains_key(k) {
                                let w0 = choose|w0: int| 0 <= w0 < s0.len() && s0[w0].0 == k;
                                assert(s1[w0].0 == k);
                            }
                            if map_of(s1).contains_key(k) {
                                let w = choose|w: int| 0 <= w < s1.len() && s1[w].0 == k;
                                assert(s0[w].0 == k);
                                let w0 = choose|w0: int| 0 <= w0 < s0.len() && s0[w0].0 == k;
                                lemma_key_index_unique(s0, w0, w);
                            }
                        }
                    });
                }
                return;
            }
            i += 1;
        }
        self.entries.push((id, v));
        proof {
            let s1 = self.entries@;
            assert(forall|j: int| 0 <= j < s0.len() ==> s1[j] == s0[j]);
            assert(s1[s0.len() as int].0 == id);
            assert(distinct_keys(s1));
            assert_maps_equal!(map_of(s1), map_of(s0).insert(id, v), k => {
                if k == id {
                    let w = choose|w: int| 0 <= w < s1.len() && s1[w].0 == k;
                    lemma_key_index_unique(s1, w, s0.len() as int);
                } else {
                    if map_of(s0).contains_key(k) {
                        let w0 = choose|w0: int| 0 <= w0 < s0.len() && s0[w0].0 == k;
                        assert(s1[w0].0 == k);
                    }
                    if map_of(s1).contains_key(k) {
                        let w = choose|w: int| 0 <= w < s1.len() && s1[w].0 == k;
                        assert(w < s0.len() && s0[w].0 == k);
                        let w0 = choose|w0: int| 0 <= w0 < s0.len() && s0[w0].0 == k;
                        lemma_key_index_unique(s0, w0, w);
                    }
                }
            });
        }
    }

    /// Removes the entry for `id`, if present. Removing an absent key is a
    /// no-op, not a failure.
    pub fn remove(&mut self, id: u64)
        requires
            old(self).wf(),
        ensures
            final(self).wf(),
            final(self)@ == old(self)@.remove(id),
    {
        let ghost s0 = self.entries@;
        let n = self.entries.len();
        let mut i: usize = 0;
        while i < n
            invariant
                n == self.entries@.len(),
                0 <= i <= n,
                self.entries@ == s0,
                old(self).entries@ == s0,
                distinct_keys(s0),
                forall|j: int| 0 <= j < i ==> self.entries@[j].0 != id,
            decreases n - i,
        {
            if self.entries[i].0 == id {
                proof {
                    assert(s0[i as int].0 == id);
                }
                self.entries.remove(i);
                proof {
                    let s1 = self.entries@;
                    assert(s1 =~= s0.subrange(0, i as int) + s0.subrange(
                        i as int + 1,
                        s0.len() as int,
                    ));
                    assert(forall|j: int| 0 <= j < s1.len() ==> s1[j] == (if j < i {
                        s0[j]
                    } else {
                        s0[j + 1]
                    }));
                    assert(distinct_keys(s1)) by {
                        assert forall|a: int, b: int| 0 <= a < b < s1.len() implies s1[a].0
                            != s1[b].0 by {
                            let a0: int = if a < i { a } else { a + 1 };
                            let b0: int = if b < i { b } else { b + 1 };
                            assert(s0[a0].0 != s0[b0].0);
                        }
                    }
                    assert_maps_equal!(map_of(s1), map_of(s0).remove(id), k => {
                        if k == id {
                            if map_of(s1).contains_key(k) {
                                let w = choose|w: int| 0 <= w < s1.len() && s1[w].0 == k;
                                let w0: int = if w < i { w } else { w + 1 };
                                assert(s0[w0].0 == k);
                                lemma_key_index_unique(s0, w0, i as int);
                            }
                        } else {
                            if map_of(s1).contains_key(k) {
                                let w = choose|w: int| 0 <= w < s1.len() && s1[w].0 == k;
                                let w0: int = if w < i { w } else { w + 1 };
                                assert(s0[w0].0 == k && map_of(s0).contains_key(k));
                                let v0 = choose|v0: int| 0 <= v0 < s0.len() && s0[v0].0 == k;
                                lemma_key_index_unique(s0, v0, w0);
                            } else if map_of(s0).contains_key(k) {
                                let w0 = choose|w0: int| 0 <= w0 < s0.len() && s0[w0].0 == k;
                                assert(w0 != i);
                                let w: int = if w0 < i { w0 } else { w0 - 1 };
                                assert(s1[w].0 == k);
                            }
                        }
                    });
                }
                return;
            }
            i += 1;
        }
        proof {
            assert(!map_of(s0).contains_key(id));
            assert(map_of(s0) =~= map_of(s0).remove(id));
        }
    }

    /// A registry holds at most one value per identity: anything `get`
    /// yields for the same identity is that one value.
    pub proof fn lemma_at_most_one(self, id: u64, a: V, b: V)
        requires
            self@.contains_key(id),
            a == self@[id],
            b == self@[id],
        ensures
            a == b,
    {
    }

    /// The set of identities with an entry is finite.
    pub proof fn lemma_dom_finite(self)
        ensures
            self@.dom().finite(),
    {
        lemma_map_of_finite(self.entries@);
    }
}

/// The identities the map sends to exactly this value.
pub open spec fn holders_of<V>(m: Map<u64, V>, v: V) -> Set<u64> {
    Set::new(|k: u64| m.contains_key(k) && m[k] == v)
}

/// How many identities the map sends to exactly this value.
pub open spec fn count_with<V>(m: Map<u64, V>, v: V) -> nat {
    holders_of(m, v).len()
}

/// The census of a value never exceeds the number of entries, and is a
/// well-defined finite count.
pub proof fn lemma_holders_finite<V>(m: Map<u64, V>, v: V)
    requires
        m.dom().finite(),
    ensures
        holders_of(m, v).finite(),
        holders_of(m, v).len() <= m.dom().len(),
{
    assert(holders_of(m, v).subset_of(m.dom()));
    vstd::set_lib::lemma_len_subset(holders_of(m, v), m.dom());
}

/// The mapping of any pair list has a finite domain.
pub proof fn lemma_map_of_finite<V>(s: Seq<(u64, V)>)
    ensures
        map_of(s).dom().finite(),
    decreases s.len(),
{
    if s.len() == 0 {
        assert(map_of(s).dom() =~= Set::<u64>::empty());
    } else {
        let s0 = s.drop_last();
        lemma_map_of_finite(s0);
        let k = s.last().0;
        assert forall|x: u64| map_of(s).dom().contains(x) implies map_of(s0).dom().contains(x) || x
            == k by {
            let w = choose|i: int| 0 <= i < s.len() && s[i].0 == x;
            if w < s.len() - 1 {
                assert(s0[w].0 == x);
            }
        }
        assert forall|x: u64|
            map_of(s0).dom().contains(x) || x == k implies map_of(s).dom().contains(x) by {
            if map_of(s0).dom().contains(x) {
                let w = choose|i: int| 0 <= i < s0.len() && s0[i].0 == x;
                assert(s[w].0 == x);
            } else {
                assert(s[s.len() - 1].0 == x);
            }
        }
        assert(map_of(s).dom() =~= map_of(s0).dom().insert(k));
    }
}

/// Appending a fresh key denotes the mapping extended by that key.
pub proof fn lemma_map_of_push<V>(s: Seq<(u64, V)>, k: u64, v: V)
    requires
        distinct_keys(s),
        forall|j: int| 0 <= j < s.len() ==> s[j].0 != k,
    ensures
        map_of(s.push((k, v))) == map_of(s).insert(k, v),
{
    let s1 = s.push((k, v));
    assert(s1[s.len() as int].0 == k);
    assert(distinct_keys(s1));
    assert_maps_equal!(map_of(s1), map_of(s).insert(k, v), x => {
        if x == k {
            if map_of(s1).contains_key(x) {
                let w = choose|w: int| 0 <= w < s1.len() && s1[w].0 == x;
                lemma_key_index_unique(s1, w, s.len() as int);
            }
        } else {
            if map_of(s).contains_key(x) {
                let w0 = choose|w0: int| 0 <= w0 < s.len() && s[w0].0 == x;
                assert(s1[w0].0 == x);
            }
            if map_of(s1).contains_key(x) {
                let w = choose|w: int| 0 <= w < s1.len() && s1[w].0 == x;
                assert(w < s.len() && s[w].0 == x);
                let w0 = choose|w0: int| 0 <= w0 < s.len() && s[w0].0 == x;
                lemma_key_index_unique(s, w0, w);
            }
        }
    });
}

/// How one update changes the census of a value: the identity's new value
/// gains it, and whatever value the identity held before loses it.
pub proof fn lemma_count_insert<V>(m: Map<u64, V>, u: u64, v: V, t: V)
    requires
        m.dom().finite(),
    ensures
        v == t && !(m.contains_key(u) && m[u] == t) ==> count_with(m.insert(u, v), t) == count_with(
            m,
            t,
        ) + 1,
        v == t && m.contains_key(u) && m[u] == t ==> count_with(m.insert(u, v), t) == count_with(
            m,
            t,
        ),
        v != t && m.contains_key(u) && m[u] == t ==> count_with(m.insert(u, v), t) + 1
            == count_with(m, t),
        v != t && !(m.contains_key(u) && m[u] == t) ==> count_with(m.insert(u, v), t) == count_with(
            m,
            t,
        ),
{
    let m1 = m.insert(u, v);
    let fs = holders_of(m, t);
    let fs1 = holders_of(m1, t);
    lemma_holders_finite(m, t);
    if v == t {
        assert(fs1 =~= fs.insert(u));
    } else {
        assert(fs1 =~= fs.remove(u));
    }
}

impl Registry<Task> {
    /// Counts the units whose current task is exactly `t`.
    pub fn count_task(&self, t: Task) -> (c: usize)
        requires
            self.wf(),
        ensures
            c == count_with(self@, t),
    {
        let n = self.entries.len();
        let mut c: usize = 0;
        let mut i: usize = 0;
        proof {
            assert(holders_of(map_of(self.entries@.take(0)), t) =~= Set::<u64>::empty());
        }
        while i < n
            invariant
                n == self.entries@.len(),
                0 <= i <= n,
                c <= i,
                distinct_keys(self.entries@),
                c == count_with(map_of(self.entries@.take(i as int)), t),
            decreases n - i,
        {
            let ghost sp = self.entries@.take(i as int);
            let ghost e = self.entries@[i as int];
            proof {
                assert(self.entries@.take(i as int + 1) =~= sp.push(e));
                assert(forall|j: int| 0 <= j < sp.len() ==> sp[j] == self.entries@[j]);
                assert(distinct_keys(sp));
                lemma_map_of_push(sp, e.0, e.1);
                lemma_map_of_finite(sp);
                lemma_count_insert(map_of(sp), e.0, e.1, t);
            }
            if self.entries[i].1 == t {
                c += 1;
            }
            i += 1;
        }
        proof {
            assert(self.entries@.take(n as int) =~= self.entries@);
        }
        c
    }

    /// Finds some unit currently holding exactly the task `t`.
    pub fn find_task_holder(&self, t: Task) -> (r: Option<u64>)
        requires
            self.wf(),
        ensures
            match r {
                Some(u) => self@.contains_key(u) && self@[u] == t,
                None => forall|u: u64| self@.contains_key(u) ==> self@[u] != t,
            },
    {
        let n = self.entries.len();
        let mut i: usize = 0;
        while i < n
            invariant
                n == self.entries@.len(),
                0 <= i <= n,
                distinct_keys(self.entries@),
                forall|j: int| 0 <= j < i ==> self.entries@[j].1 != t,
            decreases n - i,
        {
            if self.entries[i].1 == t {
                proof {
                    let id = self.entries@[i as int].0;
                    let w = choose|w: int|
                        0 <= w < self.entries@.len() && self.entries@[w].0 == id;
                    lemma_key_index_unique(self.entries@, w, i as int);
                }
                return Some(self.entries[i].0);
            }
            i += 1;
        }
        proof {
            assert forall|u: u64| self@.contains_key(u) implies self@[u] != t by {
                let w = choose|w: int| 0 <= w < self.entries@.len() && self.entries@[w].0 == u;
            }
        }
        None
    }
}

} // verus!
