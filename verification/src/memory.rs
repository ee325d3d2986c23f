//! Persisted per-unit bookkeeping and its reconciliation sweep.
//!
//! The host keeps a serialized blob of per-unit records between ticks; the
//! task state itself is never persisted. Periodically the records are
//! reconciled against the live roster: entries for units that no longer
//! exist are swept away. Parsing and writing the blob is the host's side;
//! the core works on the decoded records.

use vstd::prelude::*;

use crate::roles::Role;

verus! {

/// The movement scratch state the host path-cache stores for a unit.
#[derive(Clone, Debug)]
pub struct DestJson {
    pub x: u64,
    pub y: u64,
    pub room: String,
}

/// A cached move: destination, the tick it was computed, the encoded path,
/// and the room it belongs to.
#[derive(Clone, Debug)]
pub struct Move {
    pub dest: DestJson,
    pub time: u64,
    pub path: String,
    pub room: String,
}

/// One unit's persisted record.
#[derive(Clone, Debug)]
pub struct CreepMemory {
    pub _move: Option<Move>,
    pub role: Option<Role>,
}

/// The root of the persisted blob: one record per unit name.
pub struct Root {
    pub creeps: Vec<(String, CreepMemory)>,
}

/// Whether a name appears in the live roster.
pub open spec fn name_is_live(live: Seq<String>, name: Seq<char>) -> bool {
    exists|i: int| 0 <= i < live.len() && live[i]@ == name
}

/// The records that survive a sweep: exactly those whose name is live, in
/// their original order.
pub open spec fn spec_clean(creeps: Seq<(String, CreepMemory)>, live: Seq<String>) -> Seq<
    (String, CreepMemory),
>
    decreases creeps.len(),
{
    if creeps.len() == 0 {
        creeps
    } else {
        let prefix = spec_clean(creeps.drop_last(), live);
        if name_is_live(live, creeps.last().0@) {
            prefix.push(creeps.last())
        } else {
            prefix
        }
    }
}

/// Index of the first record carrying this name, within the prefix.
pub open spec fn first_name_before(
    creeps: Seq<(String, CreepMemory)>,
    name: Seq<char>,
    p: int,
) -> Option<int>
    decreases p,
{
    if p <= 0 {
        None
    } else {
        let prev = first_name_before(creeps, name, p - 1);
        if prev is Some {
            prev
        } else if 0 <= p - 1 < creeps.len() && creeps[p - 1].0@ == name {
            Some(p - 1)
        } else {
            None
        }
    }
}

/// Index of the first record carrying this name.
pub open spec fn spec_find_name(creeps: Seq<(String, CreepMemory)>, name: Seq<char>) -> Option<int> {
    first_name_before(creeps, name, creeps.len() as int)
}

/// A first record found in a prefix stands for the whole list.
proof fn lemma_first_name_extends(creeps: Seq<(String, CreepMemory)>, name: Seq<char>, p: int)
    requires
        0 <= p <= creeps.len(),
        first_name_before(creeps, name, p) is Some,
    ensures
        spec_find_name(creeps, name) == first_name_before(creeps, name, p),
    decreases creeps.len() - p,
{
    if p < creeps.len() {
        lemma_first_name_extends(creeps, name, p + 1);
    }
}

/// Checks whether a name appears in the live roster.
pub fn contains_name(live: &Vec<String>, name: &String) -> (r: bool)
    ensures
        r == name_is_live(live@, name@),
{
    let n = live.len();
    let mut i: usize = 0;
    while i < n
        invariant
            n == live@.len(),
            0 <= i <= n,
            forall|j: int| 0 <= j < i ==> live@[j]@ != name@,
        decreases n - i,
    {
        if name.eq(&live[i]) {
            return true;
        }
        i += 1;
    }
    false
}

impl Root {
    /// An empty record set.
    pub fn new() -> (r: Root)
        ensures
            r.creeps@.len() == 0,
    {
        Root { creeps: Vec::new() }
    }

    /// The reconciliation sweep: drops every record whose unit is no longer
    /// in the live roster, keeping the rest in order.
    pub fn clean_up(&mut self, live: &Vec<String>)
        ensures
            final(self).creeps@ == spec_clean(old(self).creeps@, live@),
    {
        let ghost orig = self.creeps@;
        let mut kept: Vec<(String, CreepMemory)> = Vec::new();
        let mut processed: usize = 0;
        let total = self.creeps.len();
        while processed < total
            invariant
                total == orig.len(),
                0 <= processed <= total,
                self.creeps@ =~= orig.skip(processed as int),
                kept@ == spec_clean(orig.take(processed as int), live@),
            decreases total - processed,
        {
            proof {
                assert(orig.take(processed as int + 1).drop_last() =~= orig.take(
                    processed as int,
                ));
                assert(orig.take(processed as int + 1).last() == orig[processed as int]);
                assert(self.creeps@[0] == orig[processed as int]);
            }
            let entry = self.creeps.remove(0);
            if contains_name(live, &entry.0) {
                kept.push(entry);
            }
            proof {
                assert(self.creeps@ =~= orig.skip(processed as int + 1));
            }
            processed += 1;
        }
        proof {
            assert(orig.take(total as int) =~= orig);
        }
        self.creeps = kept;
    }

    /// Looks up the first record for a unit name.
    pub fn get_creep_memory(&self, name: &String) -> (r: Option<&CreepMemory>)
        ensures
            match r {
                Some(m) => spec_find_name(self.creeps@, name@) is Some && *m
                    == self.creeps@[spec_find_name(self.creeps@, name@)->0].1,
                None => spec_find_name(self.creeps@, name@) is None,
            },
    {
        let n = self.creeps.len();
        let mut i: usize = 0;
        while i < n
            invariant
                n == self.creeps@.len(),
                0 <= i <= n,
                first_name_before(self.creeps@, name@, i as int) is None,
            decreases n - i,
        {
            if name.eq(&self.creeps[i].0) {
                proof {
                    assert(first_name_before(self.creeps@, name@, i as int + 1) == Some(i as int));
                    lemma_first_name_extends(self.creeps@, name@, i as int + 1);
                }
                return Some(&self.creeps[i].1);
            }
            i += 1;
        }
        None
    }

    /// Gives the first record for this name a role, when it has none yet.
    /// Records for other names, records already carrying a role, and
    /// missing records are left untouched.
    pub fn set_role_if_missing(&mut self, name: &String, role: Role)
        ensures
            match spec_find_name(old(self).creeps@, name@) {
                None => final(self).creeps@ == old(self).creeps@,
                Some(i) => if old(self).creeps@[i].1.role is None {
                    final(self).creeps@ == old(self).creeps@.update(
                        i,
                        (
                            old(self).creeps@[i].0,
                            CreepMemory {
                                _move: old(self).creeps@[i].1._move,
                                role: Some(role),
                            },
                        ),
                    )
                } else {
                    final(self).creeps@ == old(self).creeps@
                },
            },
    {
        let ghost orig = self.creeps@;
        let n = self.creeps.len();
        let mut i: usize = 0;
        while i < n
            invariant
                n == self.creeps@.len(),
                self.creeps@ == orig,
                old(self).creeps@ == orig,
                0 <= i <= n,
                first_name_before(self.creeps@, name@, i as int) is None,
            decreases n - i,
        {
            if name.eq(&self.creeps[i].0) {
                proof {
                    assert(first_name_before(orig, name@, i as int + 1) == Some(i as int));
                    lemma_first_name_extends(orig, name@, i as int + 1);
                }
                let has_role = match &self.creeps[i].1.role {
                    Some(_) => true,
                    None => false,
                };
                if !has_role {
                    let entry = self.creeps.remove(i);
                    let updated = CreepMemory { _move: entry.1._move, role: Some(role) };
                    self.creeps.insert(i, (entry.0, updated));
                    proof {
                        assert(self.creeps@ =~= orig.update(
                            i as int,
                            (
                                orig[i as int].0,
                                CreepMemory { _move: orig[i as int].1._move, role: Some(role) },
                            ),
                        ));
                    }
                }
                return ;
            }
            i += 1;
        }
    }
}

} // verus!
