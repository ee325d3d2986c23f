//! The scheduler: one tick's orchestration for a unit, the congestion
//! correction pass, the role cache, and the spawn decision.
//!
//! A tick for one unit runs in two verified halves around the host's verb:
//! `run_unit_plan` looks the task up (assigning one via the policy when the
//! unit is idle) and says which command to perform; once the host reports
//! the verb's outcome, `run_unit_settle` updates the registry. Both halves
//! say exactly how the registry changes.

use vstd::prelude::*;

use crate::executor::{
    plan_task, settle_task, spec_plan_task, spec_settle_task, spec_transfer_amount,
    task_ref_resolves,
};
use crate::policy::{choose_task, spec_choose_task, PolicyDraws};
use crate::registry::{count_with, holders_of, Registry};
use crate::roles::Role;
use crate::select::is_unfilled_extension;
use crate::task::{Action, Outcome, Plan, Settle, StructureKind, Task};
use crate::world::{spec_lookup_structure, SourceView, Unit, WorldSnapshot};

verus! {

/// How many units may hold a harvest task on one source before the
/// correction pass moves one away.
pub const CONGESTION_THRESHOLD: u32 = 7;

/// One unit's tick, up to the host verb: a spawning unit is skipped; a busy
/// unit's task is advanced one step, dropping it if stale or finished; an
/// idle unit is assigned a task by the policy and acts on it next tick.
pub fn run_unit_plan(
    reg: &mut Registry<Task>,
    unit: &Unit,
    w: &WorldSnapshot,
    d: PolicyDraws,
) -> (r: Option<Action>)
    requires
        old(reg).wf(),
        unit.wf(),
        w.wf(),
        d.wf(),
    ensures
        final(reg).wf(),
        unit.spawning ==> final(reg)@ == old(reg)@ && r is None,
        !unit.spawning && old(reg)@.contains_key(unit.id) ==> match spec_plan_task(
            *unit,
            *w,
            old(reg)@[unit.id],
        ) {
            Plan::Act(a) => final(reg)@ == old(reg)@ && r == Some(a),
            Plan::Drop(_) => final(reg)@ == old(reg)@.remove(unit.id) && r is None,
        },
        !unit.spawning && !old(reg)@.contains_key(unit.id) ==> r is None && match spec_choose_task(
            *unit,
            *w,
            d,
        ) {
            Some(t) => final(reg)@ == old(reg)@.insert(unit.id, t),
            None => final(reg)@ == old(reg)@,
        },
        // Idempotent re-resolution: a held task whose reference fails to
        // resolve is gone after the step, and no command is issued for it.
        !unit.spawning && old(reg)@.contains_key(unit.id) && !task_ref_resolves(
            *w,
            old(reg)@[unit.id],
        ) ==> !final(reg)@.contains_key(unit.id) && r is None,
{
    if unit.spawning {
        return None;
    }
    let held: Option<Task> = match reg.get(unit.id) {
        Some(t) => Some(*t),
        None => None,
    };
    match held {
        Some(task) => {
            proof {
                if !task_ref_resolves(*w, task) {
                    crate::executor::lemma_unresolved_task_dropped(*unit, *w, task);
                }
            }
            match plan_task(unit, w, task) {
                Plan::Act(a) => Some(a),
                Plan::Drop(_) => {
                    reg.remove(unit.id);
                    None
                },
            }
        },
        None => {
            match choose_task(unit, w, d) {
                Some(t) => {
                    reg.set(unit.id, t);
                    None
                },
                None => None,
            }
        },
    }
}

/// One unit's tick after the host performed the planned command: the
/// command and its outcome settle whether the held task is kept, removed,
/// or replaced within the same tick. A move, however it went, keeps the
/// task; only a terminal verb's outcome can end or replace it.
pub fn run_unit_settle(
    reg: &mut Registry<Task>,
    unit: &Unit,
    w: &WorldSnapshot,
    action: Action,
    outcome: Outcome,
)
    requires
        old(reg).wf(),
        unit.wf(),
        w.wf(),
    ensures
        final(reg).wf(),
        !old(reg)@.contains_key(unit.id) ==> final(reg)@ == old(reg)@,
        old(reg)@.contains_key(unit.id) ==> match spec_settle_task(
            *unit,
            *w,
            old(reg)@[unit.id],
            action,
            outcome,
        ) {
            Settle::Keep => final(reg)@ == old(reg)@,
            Settle::Remove(_) => final(reg)@ == old(reg)@.remove(unit.id),
            Settle::Switch(t2) => final(reg)@ == old(reg)@.insert(unit.id, t2),
        },
        // A unit still seeking its target keeps its task: settling a move
        // never changes the registry.
        crate::executor::is_move_action(action) ==> final(reg)@ == old(reg)@,
{
    let held: Option<Task> = match reg.get(unit.id) {
        Some(t) => Some(*t),
        None => None,
    };
    match held {
        Some(task) => {
            match settle_task(unit, w, task, action, outcome) {
                Settle::Keep => {},
                Settle::Remove(_) => {
                    reg.remove(unit.id);
                },
                Settle::Switch(t2) => {
                    reg.set(unit.id, t2);
                },
            }
        },
        None => {},
    }
}

/// Chained deposit: a successful extension deposit that leaves the unit
/// with residual energy, while another unfilled extension stands, settles
/// into a deposit task on such an extension within the same tick — never
/// into idleness. The settled command is the transfer the planner issues
/// for an in-range deposit.
pub proof fn lemma_chained_deposit(unit: Unit, w: WorldSnapshot, id: u64)
    requires
        unit.wf(),
        spec_lookup_structure(w.structures@, id) is Some,
        unit.carried > spec_transfer_amount(
            unit.carried,
            spec_lookup_structure(w.structures@, id)->0.free_energy,
        ),
        exists|j: int|
            0 <= j < w.structures@.len() && is_unfilled_extension(w.structures@[j], Some(id)),
    ensures
        exists|j: int|
            0 <= j < w.structures@.len() && is_unfilled_extension(w.structures@[j], Some(id))
                && spec_settle_task(
                unit,
                w,
                Task::DepositToStructure(StructureKind::Extension, id),
                Action::TransferTo(
                    id,
                    spec_transfer_amount(
                        unit.carried,
                        spec_lookup_structure(w.structures@, id)->0.free_energy,
                    ),
                ),
                Outcome::Success,
            ) == Settle::Switch(
                Task::DepositToStructure(StructureKind::Extension, w.structures@[j].id),
            ),
{
    let b = crate::select::best_extension_idx(w.structures@, unit.pos, Some(id));
    crate::select::lemma_best_extension_characterization(w.structures@, unit.pos, Some(id));
    if b is None {
        let j = choose|j: int|
            0 <= j < w.structures@.len() && is_unfilled_extension(w.structures@[j], Some(id));
        assert(!is_unfilled_extension(w.structures@[j], Some(id)));
        assert(false);
    }
    let i = b->0;
    assert(0 <= i < w.structures@.len() && is_unfilled_extension(w.structures@[i], Some(id)));
}

/// Index of the first other active source a congested unit can be moved to.
pub open spec fn first_alt_before(srcs: Seq<SourceView>, src: u64, p: int) -> Option<int>
    decreases p,
{
    if p <= 0 {
        None
    } else {
        let prev = first_alt_before(srcs, src, p - 1);
        if prev is Some {
            prev
        } else if 0 <= p - 1 < srcs.len() && srcs[p - 1].id != src && srcs[p - 1].active {
            Some(p - 1)
        } else {
            None
        }
    }
}

/// Index of the first other active source in the whole snapshot.
pub open spec fn first_alt_idx(srcs: Seq<SourceView>, src: u64) -> Option<int> {
    first_alt_before(srcs, src, srcs.len() as int)
}

/// Whether the source at this index is oversubscribed and has somewhere to
/// shed a unit to.
pub open spec fn congested_at(srcs: Seq<SourceView>, m: Map<u64, Task>, i: int) -> bool {
    &&& count_with(m, Task::Harvest(srcs[i].id)) > CONGESTION_THRESHOLD
    &&& first_alt_idx(srcs, srcs[i].id) is Some
}

/// Index of the first correctable congested source within the prefix.
pub open spec fn first_congested_before(srcs: Seq<SourceView>, m: Map<u64, Task>, p: int) -> Option<
    int,
>
    decreases p,
{
    if p <= 0 {
        None
    } else {
        let prev = first_congested_before(srcs, m, p - 1);
        if prev is Some {
            prev
        } else if 0 <= p - 1 < srcs.len() && congested_at(srcs, m, p - 1) {
            Some(p - 1)
        } else {
            None
        }
    }
}

/// Index of the first correctable congested source in the whole snapshot.
pub open spec fn first_congested_idx(srcs: Seq<SourceView>, m: Map<u64, Task>) -> Option<int> {
    first_congested_before(srcs, m, srcs.len() as int)
}

/// Finds the first other active source for a congested one.
fn find_alt_source(sources: &Vec<SourceView>, src: u64) -> (r: Option<u64>)
    ensures
        match first_alt_idx(sources@, src) {
            Some(i) => r == Some(sources@[i].id) && sources@[i].id != src && sources@[i].active,
            None => r is None,
        },
{
    let n = sources.len();
    let mut i: usize = 0;
    while i < n
        invariant
            n == sources@.len(),
            0 <= i <= n,
            first_alt_before(sources@, src, i as int) is None,
        decreases n - i,
    {
        if sources[i].id != src && sources[i].active {
            proof {
                assert(first_alt_before(sources@, src, i as int + 1) == Some(i as int));
                lemma_first_alt_extends(sources@, src, i as int + 1);
            }
            return Some(sources[i].id);
        }
        i += 1;
    }
    None
}

/// A first alternative found in a prefix stands for the whole list.
proof fn lemma_first_alt_extends(srcs: Seq<SourceView>, src: u64, p: int)
    requires
        0 <= p <= srcs.len(),
        first_alt_before(srcs, src, p) is Some,
    ensures
        first_alt_idx(srcs, src) == first_alt_before(srcs, src, p),
    decreases srcs.len() - p,
{
    if p < srcs.len() {
        lemma_first_alt_extends(srcs, src, p + 1);
    }
}

/// A first congested source found in a prefix stands for the whole list.
proof fn lemma_first_congested_extends(srcs: Seq<SourceView>, m: Map<u64, Task>, p: int)
    requires
        0 <= p <= srcs.len(),
        first_congested_before(srcs, m, p) is Some,
    ensures
        first_congested_idx(srcs, m) == first_congested_before(srcs, m, p),
    decreases srcs.len() - p,
{
    if p < srcs.len() {
        lemma_first_congested_extends(srcs, m, p + 1);
    }
}

/// The congestion correction pass, run after all units have stepped: if
/// some source has more than the threshold of harvesters and another active
/// source stands in the room, one excess unit is reassigned there. One
/// correction is applied per pass; the pass runs every tick, so persistent
/// congestion keeps draining. Returns the source corrected and the
/// alternative chosen, if any.
pub fn congestion_pass(reg: &mut Registry<Task>, sources: &Vec<SourceView>) -> (r: Option<
    (u64, u64),
>)
    requires
        old(reg).wf(),
    ensures
        final(reg).wf(),
        match first_congested_idx(sources@, old(reg)@) {
            None => final(reg)@ == old(reg)@ && r is None,
            Some(i) => {
                let src = sources@[i].id;
                let alt = sources@[first_alt_idx(sources@, src)->0].id;
                &&& r == Some((src, alt))
                &&& exists|u: u64|
                    old(reg)@.contains_key(u) && old(reg)@[u] == Task::Harvest(src)
                        && final(reg)@ == old(reg)@.insert(u, Task::Harvest(alt))
                &&& count_with(final(reg)@, Task::Harvest(src)) + 1 == count_with(
                    old(reg)@,
                    Task::Harvest(src),
                )
                &&& count_with(final(reg)@, Task::Harvest(alt)) == count_with(
                    old(reg)@,
                    Task::Harvest(alt),
                ) + 1
            },
        },
{
    let n = sources.len();
    let mut i: usize = 0;
    while i < n
        invariant
            old(reg) == reg,
            reg.wf(),
            n == sources@.len(),
            0 <= i <= n,
            first_congested_before(sources@, reg@, i as int) is None,
        decreases n - i,
    {
        let src = sources[i].id;
        let c = reg.count_task(Task::Harvest(src));
        if c > CONGESTION_THRESHOLD as usize {
            if let Some(alt) = find_alt_source(sources, src) {
                proof {
                    assert(congested_at(sources@, reg@, i as int));
                    assert(first_congested_before(sources@, reg@, i as int + 1) == Some(i as int));
                    lemma_first_congested_extends(sources@, reg@, i as int + 1);
                }
                let holder = reg.find_task_holder(Task::Harvest(src));
                proof {
                    if holder is None {
                        assert(holders_of(reg@, Task::Harvest(src)) =~= Set::<u64>::empty());
                        assert(count_with(reg@, Task::Harvest(src)) == 0);
                        assert(false);
                    }
                }
                match holder {
                    Some(u) => {
                        proof {
                            reg.lemma_dom_finite();
                            crate::registry::lemma_count_insert(
                                reg@,
                                u,
                                Task::Harvest(alt),
                                Task::Harvest(src),
                            );
                            crate::registry::lemma_count_insert(
                                reg@,
                                u,
                                Task::Harvest(alt),
                                Task::Harvest(alt),
                            );
                        }
                        reg.set(u, Task::Harvest(alt));
                        return Some((src, alt));
                    },
                    None => {
                        return None;
                    },
                }
            } else {
                proof {
                    assert(first_alt_idx(sources@, src) is None);
                    assert(!congested_at(sources@, reg@, i as int));
                    assert(first_congested_before(sources@, reg@, i as int + 1) is None);
                }
            }
        } else {
            proof {
                assert(!congested_at(sources@, reg@, i as int));
                assert(first_congested_before(sources@, reg@, i as int + 1) is None);
            }
        }
        i += 1;
    }
    None
}

/// Installs a cached role for a unit that has none yet, deriving it from
/// the unit's body composition; a body that defies classification falls
/// back to the neutral tag.
pub fn ensure_role(
    roles_cache: &mut Registry<Role>,
    id: u64,
    body: &Vec<crate::roles::Part>,
    draw: u32,
)
    requires
        old(roles_cache).wf(),
        draw < 5,
    ensures
        final(roles_cache).wf(),
        old(roles_cache)@.contains_key(id) ==> final(roles_cache)@ == old(roles_cache)@,
        !old(roles_cache)@.contains_key(id) ==> final(roles_cache)@ == old(roles_cache)@.insert(
            id,
            crate::roles::spec_find_role(body@, draw)->0,
        ),
{
    let cached = match roles_cache.get(id) {
        Some(_) => true,
        None => false,
    };
    if !cached {
        let role = match Role::find_role(body, draw) {
            Some(r) => r,
            None => Role::General,
        };
        roles_cache.set(id, role);
    }
}

/// The spawn decision: the next role the roster is short of, with the body
/// planned for the energy budget, offered only when the room's present
/// energy covers the body's full price.
pub open spec fn spec_plan_spawn(
    roles: Seq<Role>,
    num_creeps: u32,
    energy_available: u32,
    capacity: u32,
) -> Option<(Role, Seq<crate::roles::Part>)> {
    match crate::roles::spec_find_role_to_spawn(roles, num_creeps) {
        Some(role) => if energy_available < 300 {
            None
        } else {
            let body = crate::roles::spec_role_body(
                role,
                crate::roles::spec_energy_to_use(energy_available, capacity, num_creeps),
            );
            if crate::roles::spec_body_cost(body) <= energy_available {
                Some((role, body))
            } else {
                None
            }
        },
        None => None,
    }
}

/// Decides whether and what to spawn this tick.
pub fn plan_spawn(
    roles: &Vec<Role>,
    num_creeps: u32,
    energy_available: u32,
    capacity: u32,
) -> (r: Option<(Role, Vec<crate::roles::Part>)>)
    ensures
        match spec_plan_spawn(roles@, num_creeps, energy_available, capacity) {
            Some((role, body)) => match r {
                Some(choice) => choice.0 == role && choice.1@ == body,
                None => false,
            },
            None => r is None,
        },
{
    match Role::find_role_to_spawn(roles, num_creeps) {
        Some(role) => {
            match role.get_body(energy_available, capacity, num_creeps) {
                Some(parts) => {
                    proof {
                        let e2u = crate::roles::spec_energy_to_use(
                            energy_available,
                            capacity,
                            num_creeps,
                        );
                        vstd::arithmetic::div_mod::lemma_div_is_ordered(
                            e2u - 250,
                            0xFFFF_FFFF,
                            100,
                        );
                        vstd::arithmetic::div_mod::lemma_div_is_ordered(
                            e2u - 150,
                            0xFFFF_FFFF,
                            150,
                        );
                        vstd::arithmetic::div_mod::lemma_div_is_ordered(
                            e2u - 200,
                            0xFFFF_FFFF,
                            200,
                        );
                        match role {
                            Role::Harvester => crate::roles::lemma_harvester_body_len(
                                (((e2u - 250) as int) / 100) as nat,
                            ),
                            Role::Hauler => crate::roles::lemma_hauler_body_len(
                                (((e2u - 150) as int) / 150) as nat,
                            ),
                            _ => crate::roles::lemma_builder_body_len(
                                (((e2u - 200) as int) / 200) as nat,
                            ),
                        }
                    }
                    let cost = crate::roles::body_cost(&parts);
                    if energy_available as u64 >= cost {
                        Some((role, parts))
                    } else {
                        None
                    }
                },
                None => None,
            }
        },
        None => None,
    }
}

} // verus!
