use screeps_core::executor::{plan_task, settle_task};
use screeps_core::geom::Pos;
use screeps_core::get_value_to_transfer;
use screeps_core::policy::PolicyDraws;
use screeps_core::registry::Registry;
use screeps_core::roles::Role;
use screeps_core::scheduler::{congestion_pass, run_unit_plan, run_unit_settle};
use screeps_core::task::{
    Action, DropReason, Outcome, Plan, Settle, StructureKind, Task, TowerTarget,
};
use screeps_core::tower::{tower_run, tower_settle, TowerView};
use screeps_core::world::{
    DroppedView, PeerView, SiteView, SourceView, StructureView, Unit, WorldSnapshot,
};

fn pos(x: u32, y: u32) -> Pos {
    Pos { x, y }
}

fn source(id: u64, x: u32, y: u32, active: bool, reachable: bool, path_cost: u32) -> SourceView {
    SourceView { id, pos: pos(x, y), active, reachable, path_cost }
}

fn structure(id: u64, kind: StructureKind, x: u32, y: u32) -> StructureView {
    StructureView {
        id,
        kind,
        pos: pos(x, y),
        hits: 100,
        hits_max: 100,
        attackable: true,
        my: true,
        free_energy: 0,
        used_energy: 0,
        capacity: 0,
    }
}

fn empty_world() -> WorldSnapshot {
    WorldSnapshot {
        sources: Vec::new(),
        structures: Vec::new(),
        sites: Vec::new(),
        dropped: Vec::new(),
        hostiles: Vec::new(),
        peers: Vec::new(),
        unit_count: 1,
    }
}

fn worker(id: u64, x: u32, y: u32, carried: u32, capacity: u32) -> Unit {
    Unit { id, pos: pos(x, y), carried, capacity, spawning: false, role: Role::General }
}

fn draws(deposit: u32, repair: u32, controller: u32) -> PolicyDraws {
    PolicyDraws { deposit_draw: deposit, repair_draw: repair, controller_draw: controller }
}

// Capacity clamp: the transfer amount is the minimum of what is carried and
// the room left, and a negative free capacity clamps to zero.
#[test]
fn value_to_transfer_is_min() {
    assert_eq!(get_value_to_transfer(50, 30), 30);
    assert_eq!(get_value_to_transfer(20, 50), 20);
    assert_eq!(get_value_to_transfer(10, 10), 10);
    assert_eq!(get_value_to_transfer(0, 30), 0);
    assert_eq!(get_value_to_transfer(7, 0), 0);
}

#[test]
fn value_to_transfer_clamps_negative_capacity() {
    assert_eq!(get_value_to_transfer(40, -3), 0);
    assert_eq!(get_value_to_transfer(0, -1), 0);
}

// At-most-one task: setting a second task for the same unit replaces the
// first; a lookup yields exactly zero or one task.
#[test]
fn registry_holds_at_most_one_task_per_unit() {
    let mut reg: Registry<Task> = Registry::new();
    assert!(reg.get(1).is_none());
    reg.set(1, Task::Harvest(10));
    reg.set(1, Task::Repair(20));
    assert_eq!(reg.get(1), Some(&Task::Repair(20)));
    reg.remove(1);
    assert!(reg.get(1).is_none());
    // Removing an absent key is a no-op, not a failure.
    reg.remove(1);
    assert!(reg.get(1).is_none());
}

#[test]
fn registry_counts_tasks() {
    let mut reg: Registry<Task> = Registry::new();
    reg.set(1, Task::Harvest(10));
    reg.set(2, Task::Harvest(10));
    reg.set(3, Task::Harvest(11));
    assert_eq!(reg.count_task(Task::Harvest(10)), 2);
    assert_eq!(reg.count_task(Task::Harvest(11)), 1);
    assert_eq!(reg.count_task(Task::Harvest(12)), 0);
}

// Idempotent re-resolution: a task whose reference no longer resolves is
// removed by one step, and the unit has no task afterward.
#[test]
fn stale_harvest_task_is_dropped() {
    let mut reg: Registry<Task> = Registry::new();
    reg.set(7, Task::Harvest(999));
    let unit = worker(7, 5, 5, 0, 50);
    let w = empty_world();
    let action = run_unit_plan(&mut reg, &unit, &w, draws(0, 0, 0));
    assert!(action.is_none());
    assert!(reg.get(7).is_none());
    // A second step on the now-empty slot assigns nothing in an empty world.
    let action2 = run_unit_plan(&mut reg, &unit, &w, draws(9, 1, 1));
    assert!(action2.is_none());
    assert!(reg.get(7).is_none());
}

#[test]
fn stale_repair_task_is_dropped() {
    let mut reg: Registry<Task> = Registry::new();
    reg.set(3, Task::Repair(42));
    let unit = worker(3, 5, 5, 10, 50);
    let w = empty_world();
    assert!(run_unit_plan(&mut reg, &unit, &w, draws(0, 0, 0)).is_none());
    assert!(reg.get(3).is_none());
}

#[test]
fn spawning_unit_is_skipped() {
    let mut reg: Registry<Task> = Registry::new();
    reg.set(4, Task::Harvest(999));
    let mut unit = worker(4, 5, 5, 0, 50);
    unit.spawning = true;
    let w = empty_world();
    assert!(run_unit_plan(&mut reg, &unit, &w, draws(0, 0, 0)).is_none());
    // The stale task survives only because the unit never stepped.
    assert_eq!(reg.get(4), Some(&Task::Harvest(999)));
}

// Chained deposit: a successful extension deposit leaving residual energy
// switches to the next unfilled extension within the same tick.
#[test]
fn chained_deposit_switches_to_next_extension() {
    let mut first = structure(1, StructureKind::Extension, 6, 5);
    first.free_energy = 20;
    let mut second = structure(2, StructureKind::Extension, 9, 5);
    second.free_energy = 10;
    let mut w = empty_world();
    w.structures = vec![first, second];
    let unit = worker(11, 5, 5, 50, 50);

    let s = settle_task(
        &unit,
        &w,
        Task::DepositToStructure(StructureKind::Extension, 1),
        Action::TransferTo(1, 20),
        Outcome::Success,
    );
    assert_eq!(s, Settle::Switch(Task::DepositToStructure(StructureKind::Extension, 2)));

    let mut reg: Registry<Task> = Registry::new();
    reg.set(11, Task::DepositToStructure(StructureKind::Extension, 1));
    run_unit_settle(&mut reg, &unit, &w, Action::TransferTo(1, 20), Outcome::Success);
    assert_eq!(reg.get(11), Some(&Task::DepositToStructure(StructureKind::Extension, 2)));
}

#[test]
fn exhausting_deposit_ends_the_task() {
    let mut only = structure(1, StructureKind::Extension, 6, 5);
    only.free_energy = 80;
    let mut w = empty_world();
    w.structures = vec![only];
    let unit = worker(11, 5, 5, 50, 50);
    // The whole load fits: no residual, so the task is done.
    let s = settle_task(
        &unit,
        &w,
        Task::DepositToStructure(StructureKind::Extension, 1),
        Action::TransferTo(1, 50),
        Outcome::Success,
    );
    assert_eq!(s, Settle::Remove(DropReason::Done));
}

// Congestion correction: with eight units on one source and another active
// source present, the pass moves exactly one unit over.
#[test]
fn congestion_pass_rebalances_eighth_harvester() {
    let mut reg: Registry<Task> = Registry::new();
    for u in 1..=8u64 {
        reg.set(u, Task::Harvest(100));
    }
    let sources = vec![
        source(100, 10, 10, true, true, 5),
        source(200, 40, 40, true, true, 9),
    ];
    let corrected = congestion_pass(&mut reg, &sources);
    assert_eq!(corrected, Some((100, 200)));
    assert_eq!(reg.count_task(Task::Harvest(100)), 7);
    assert_eq!(reg.count_task(Task::Harvest(200)), 1);
}

#[test]
fn congestion_pass_leaves_balanced_registries_alone() {
    let mut reg: Registry<Task> = Registry::new();
    for u in 1..=7u64 {
        reg.set(u, Task::Harvest(100));
    }
    let sources = vec![
        source(100, 10, 10, true, true, 5),
        source(200, 40, 40, true, true, 9),
    ];
    assert_eq!(congestion_pass(&mut reg, &sources), None);
    assert_eq!(reg.count_task(Task::Harvest(100)), 7);
}

#[test]
fn congestion_pass_needs_an_alternative() {
    let mut reg: Registry<Task> = Registry::new();
    for u in 1..=8u64 {
        reg.set(u, Task::Harvest(100));
    }
    // The only other source is inactive, so nothing can be corrected.
    let sources = vec![
        source(100, 10, 10, true, true, 5),
        source(200, 40, 40, false, true, 9),
    ];
    assert_eq!(congestion_pass(&mut reg, &sources), None);
    assert_eq!(reg.count_task(Task::Harvest(100)), 8);
}

// Defense preemption: a tower holding a repair target switches to attacking
// a hostile on the tick the hostile appears.
#[test]
fn tower_preempts_repair_with_attack() {
    let tower = TowerView { pos: pos(20, 20), stored: 800, capacity: 1000 };
    let key = tower.pos.key();
    let mut reg: Registry<TowerTarget> = Registry::new();
    reg.set(key, TowerTarget::Repair(5));
    let mut w = empty_world();
    let mut damaged = structure(5, StructureKind::Other, 22, 20);
    damaged.hits = 10;
    damaged.hits_max = 100;
    w.structures = vec![damaged];
    w.hostiles = vec![77];
    let act = tower_run(&mut reg, &tower, &w);
    assert_eq!(act, Some(TowerTarget::Attack(77)));
    assert_eq!(reg.get(key), Some(&TowerTarget::Attack(77)));
}

#[test]
fn tower_keeps_attacking_until_the_verb_fails() {
    let tower = TowerView { pos: pos(20, 20), stored: 800, capacity: 1000 };
    let key = tower.pos.key();
    let mut reg: Registry<TowerTarget> = Registry::new();
    reg.set(key, TowerTarget::Attack(77));
    let w = empty_world();
    // Re-issued even after the hostile list empties; the verb's failure is
    // what drops the target.
    assert_eq!(tower_run(&mut reg, &tower, &w), Some(TowerTarget::Attack(77)));
    tower_settle(&mut reg, &tower, Outcome::Success);
    assert_eq!(reg.get(key), Some(&TowerTarget::Attack(77)));
    tower_settle(&mut reg, &tower, Outcome::InvalidTarget);
    assert!(reg.get(key).is_none());
}

#[test]
fn tower_conserves_energy_below_half() {
    let tower = TowerView { pos: pos(20, 20), stored: 400, capacity: 1000 };
    let mut reg: Registry<TowerTarget> = Registry::new();
    let mut w = empty_world();
    let mut damaged = structure(5, StructureKind::Other, 22, 20);
    damaged.hits = 10;
    damaged.hits_max = 100;
    w.structures = vec![damaged];
    assert_eq!(tower_run(&mut reg, &tower, &w), None);
    assert!(reg.get(tower.pos.key()).is_none());
}

#[test]
fn tower_guard_is_exact_at_odd_capacities() {
    // Two stored out of five is below half: the tower conserves even
    // though integer floor division would say otherwise.
    let tower = TowerView { pos: pos(20, 20), stored: 2, capacity: 5 };
    let mut reg: Registry<TowerTarget> = Registry::new();
    let mut w = empty_world();
    let mut damaged = structure(5, StructureKind::Other, 22, 20);
    damaged.hits = 10;
    damaged.hits_max = 100;
    w.structures = vec![damaged];
    assert_eq!(tower_run(&mut reg, &tower, &w), None);
    assert!(reg.get(tower.pos.key()).is_none());
    // Three out of five is at least half: the tower acquires.
    let richer = TowerView { pos: pos(20, 20), stored: 3, capacity: 5 };
    assert_eq!(tower_run(&mut reg, &richer, &w), None);
    assert_eq!(reg.get(richer.pos.key()), Some(&TowerTarget::Repair(5)));
}

#[test]
fn tower_acquires_lowest_hits_repair_target() {
    let tower = TowerView { pos: pos(20, 20), stored: 800, capacity: 1000 };
    let mut reg: Registry<TowerTarget> = Registry::new();
    let mut w = empty_world();
    let mut worse = structure(5, StructureKind::Other, 22, 20);
    worse.hits = 10;
    worse.hits_max = 100;
    let mut better = structure(6, StructureKind::Other, 23, 20);
    better.hits = 20;
    better.hits_max = 100;
    w.structures = vec![better, worse];
    // Acquisition only; the repair verb starts next tick.
    assert_eq!(tower_run(&mut reg, &tower, &w), None);
    assert_eq!(reg.get(tower.pos.key()), Some(&TowerTarget::Repair(5)));
    // Next tick the held target is worked on.
    assert_eq!(tower_run(&mut reg, &tower, &w), Some(TowerTarget::Repair(5)));
}

#[test]
fn tower_drops_healed_or_stale_repair_target() {
    let tower = TowerView { pos: pos(20, 20), stored: 800, capacity: 1000 };
    let key = tower.pos.key();
    let mut reg: Registry<TowerTarget> = Registry::new();
    reg.set(key, TowerTarget::Repair(5));
    // Stale: the structure is gone.
    let w = empty_world();
    assert_eq!(tower_run(&mut reg, &tower, &w), None);
    assert!(reg.get(key).is_none());
    // Healed: the structure is back at full hit points.
    reg.set(key, TowerTarget::Repair(5));
    let mut w2 = empty_world();
    w2.structures = vec![structure(5, StructureKind::Other, 22, 20)];
    assert_eq!(tower_run(&mut reg, &tower, &w2), None);
    assert!(reg.get(key).is_none());
}

// The full assignment-and-execution scenario: an empty unit is assigned the
// nearest active source, walks there, harvests until full, and finishes.
#[test]
fn harvest_lifecycle_from_idle_to_done() {
    let mut reg: Registry<Task> = Registry::new();
    let mut w = empty_world();
    w.sources = vec![source(42, 8, 5, true, true, 3)];
    let unit = worker(1, 5, 5, 0, 50);

    // Assignment tick: the policy stores the task; no command yet.
    assert!(run_unit_plan(&mut reg, &unit, &w, draws(0, 0, 0)).is_none());
    assert_eq!(reg.get(1), Some(&Task::Harvest(42)));

    // Next tick: too far, so the executor moves toward the source.
    let act = run_unit_plan(&mut reg, &unit, &w, draws(0, 0, 0));
    assert_eq!(act, Some(Action::MoveTo(42)));
    assert_eq!(reg.get(1), Some(&Task::Harvest(42)));

    // Adjacent: the executor harvests, and keeps harvesting while room is
    // left.
    let near = worker(1, 7, 5, 10, 50);
    let act = run_unit_plan(&mut reg, &near, &w, draws(0, 0, 0));
    assert_eq!(act, Some(Action::HarvestFrom(42)));
    run_unit_settle(&mut reg, &near, &w, Action::HarvestFrom(42), Outcome::Success);
    assert_eq!(reg.get(1), Some(&Task::Harvest(42)));

    // Full: the task completes and the slot clears for re-policy.
    let full = worker(1, 7, 5, 50, 50);
    assert!(run_unit_plan(&mut reg, &full, &w, draws(0, 0, 0)).is_none());
    assert!(reg.get(1).is_none());
}

#[test]
fn pickup_success_hands_off_to_deposit() {
    let mut w = empty_world();
    let mut ext = structure(9, StructureKind::Extension, 12, 5);
    ext.free_energy = 30;
    w.structures = vec![ext];
    w.dropped = vec![DroppedView { id: 3, pos: pos(5, 6), reachable: true, path_cost: 1 }];
    let unit = worker(2, 5, 5, 10, 50);
    let s = settle_task(&unit, &w, Task::Pickup(3), Action::PickupResource(3), Outcome::Success);
    assert_eq!(s, Settle::Switch(Task::DepositToStructure(StructureKind::Extension, 9)));
}

#[test]
fn failed_pickup_drops_the_task() {
    let mut w = empty_world();
    w.dropped = vec![DroppedView { id: 3, pos: pos(5, 6), reachable: true, path_cost: 1 }];
    let unit = worker(2, 5, 5, 10, 50);
    let s = settle_task(
        &unit,
        &w,
        Task::Pickup(3),
        Action::PickupResource(3),
        Outcome::InvalidTarget,
    );
    assert_eq!(s, Settle::Remove(DropReason::Failed));
}

#[test]
fn transfer_plan_clamps_amount_to_target_room() {
    let mut ext = structure(9, StructureKind::Extension, 6, 5);
    ext.free_energy = 20;
    let mut w = empty_world();
    w.structures = vec![ext];
    let unit = worker(2, 5, 5, 50, 50);
    let p = plan_task(&unit, &w, Task::DepositToStructure(StructureKind::Extension, 9));
    assert_eq!(p, Plan::Act(Action::TransferTo(9, 20)));
}

#[test]
fn build_on_controller_site_fails_the_task() {
    let mut w = empty_world();
    w.sites = vec![SiteView {
        id: 4,
        pos: pos(6, 5),
        kind: StructureKind::Controller,
        reachable: true,
        path_cost: 1,
    }];
    let unit = worker(2, 5, 5, 10, 50);
    let p = plan_task(&unit, &w, Task::Build(4));
    assert_eq!(p, Plan::Drop(DropReason::Failed));
}

#[test]
fn movement_hiccups_keep_the_task() {
    let mut w = empty_world();
    w.sources = vec![source(42, 30, 30, true, true, 20)];
    let unit = worker(1, 5, 5, 0, 50);
    let mut reg: Registry<Task> = Registry::new();
    reg.set(1, Task::Harvest(42));
    run_unit_settle(&mut reg, &unit, &w, Action::MoveTo(42), Outcome::Tired);
    assert_eq!(reg.get(1), Some(&Task::Harvest(42)));
    run_unit_settle(&mut reg, &unit, &w, Action::MoveTo(42), Outcome::NotInRange);
    assert_eq!(reg.get(1), Some(&Task::Harvest(42)));
}

// A unit still walking to its target keeps its task: a move that succeeds
// is not the terminal verb succeeding.
#[test]
fn seeking_deposit_keeps_task_on_successful_move() {
    let mut ext = structure(9, StructureKind::Extension, 30, 30);
    ext.free_energy = 20;
    let mut w = empty_world();
    w.structures = vec![ext];
    let unit = worker(2, 5, 5, 50, 50);
    let mut reg: Registry<Task> = Registry::new();
    reg.set(2, Task::DepositToStructure(StructureKind::Extension, 9));
    let act = run_unit_plan(&mut reg, &unit, &w, draws(0, 0, 0));
    assert_eq!(act, Some(Action::MoveTo(9)));
    run_unit_settle(&mut reg, &unit, &w, Action::MoveTo(9), Outcome::Success);
    assert_eq!(reg.get(2), Some(&Task::DepositToStructure(StructureKind::Extension, 9)));
}

#[test]
fn seeking_hand_off_keeps_entry_on_successful_move() {
    let mut w = empty_world();
    w.peers = vec![PeerView {
        id: 30,
        pos: pos(30, 30),
        carried: 10,
        capacity: 50,
        role: Role::Builder,
    }];
    let unit = worker(2, 5, 5, 25, 50);
    let mut reg: Registry<Task> = Registry::new();
    reg.set(2, Task::TransferToUnit(30));
    let act = run_unit_plan(&mut reg, &unit, &w, draws(0, 0, 0));
    assert_eq!(act, Some(Action::MoveTo(30)));
    run_unit_settle(&mut reg, &unit, &w, Action::MoveTo(30), Outcome::Success);
    assert_eq!(reg.get(2), Some(&Task::TransferToUnit(30)));
}

#[test]
fn seeking_pickup_keeps_task_on_successful_move() {
    let mut w = empty_world();
    w.dropped = vec![DroppedView { id: 3, pos: pos(30, 30), reachable: true, path_cost: 25 }];
    let unit = worker(2, 5, 5, 10, 50);
    let mut reg: Registry<Task> = Registry::new();
    reg.set(2, Task::Pickup(3));
    let act = run_unit_plan(&mut reg, &unit, &w, draws(0, 0, 0));
    assert_eq!(act, Some(Action::MoveTo(3)));
    run_unit_settle(&mut reg, &unit, &w, Action::MoveTo(3), Outcome::Success);
    assert_eq!(reg.get(2), Some(&Task::Pickup(3)));
}

#[test]
fn transfer_to_unit_runs_once_and_ends() {
    let mut w = empty_world();
    w.peers = vec![PeerView {
        id: 30,
        pos: pos(6, 5),
        carried: 10,
        capacity: 50,
        role: Role::Builder,
    }];
    let unit = worker(2, 5, 5, 25, 50);
    let p = plan_task(&unit, &w, Task::TransferToUnit(30));
    assert_eq!(p, Plan::Act(Action::TransferToPeer(30, 25)));
    let s = settle_task(
        &unit,
        &w,
        Task::TransferToUnit(30),
        Action::TransferToPeer(30, 25),
        Outcome::Success,
    );
    assert_eq!(s, Settle::Remove(DropReason::Done));
    let s_full = settle_task(
        &unit,
        &w,
        Task::TransferToUnit(30),
        Action::TransferToPeer(30, 25),
        Outcome::Full,
    );
    assert_eq!(s_full, Settle::Remove(DropReason::Done));
}

#[test]
fn repair_plan_walks_heals_and_finishes() {
    let mut hurt = structure(5, StructureKind::Other, 15, 5);
    hurt.hits = 10;
    hurt.hits_max = 100;
    let mut w = empty_world();
    w.structures = vec![hurt];
    let unit = worker(2, 5, 5, 30, 50);
    // Ten tiles away: walk first.
    assert_eq!(plan_task(&unit, &w, Task::Repair(5)), Plan::Act(Action::MoveTo(5)));
    // Within working range of three: repair.
    let close = worker(2, 13, 5, 30, 50);
    assert_eq!(plan_task(&close, &w, Task::Repair(5)), Plan::Act(Action::RepairStructure(5)));
    // Healed target: done.
    w.structures[0].hits = 100;
    assert_eq!(plan_task(&close, &w, Task::Repair(5)), Plan::Drop(DropReason::Done));
    // Out of energy: done as well.
    let spent = worker(2, 13, 5, 0, 50);
    w.structures[0].hits = 10;
    assert_eq!(plan_task(&spent, &w, Task::Repair(5)), Plan::Drop(DropReason::Done));
}

#[test]
fn upgrade_plan_respects_working_range() {
    let mut w = empty_world();
    let mut controller = structure(13, StructureKind::Controller, 9, 5);
    controller.my = false;
    controller.attackable = false;
    w.structures = vec![controller];
    let unit = worker(2, 5, 5, 30, 50);
    assert_eq!(plan_task(&unit, &w, Task::UpgradeController(13)), Plan::Act(Action::MoveTo(13)));
    let close = worker(2, 7, 5, 30, 50);
    assert_eq!(
        plan_task(&close, &w, Task::UpgradeController(13)),
        Plan::Act(Action::UpgradeAt(13))
    );
}

#[test]
fn full_deposit_without_alternative_ends() {
    let mut only = structure(1, StructureKind::Extension, 6, 5);
    only.free_energy = 0;
    let mut w = empty_world();
    w.structures = vec![only];
    let unit = worker(11, 5, 5, 50, 50);
    let s = settle_task(
        &unit,
        &w,
        Task::DepositToStructure(StructureKind::Extension, 1),
        Action::TransferTo(1, 0),
        Outcome::Full,
    );
    assert_eq!(s, Settle::Remove(DropReason::Done));
}

#[test]
fn full_deposit_with_alternative_chains() {
    let mut filled = structure(1, StructureKind::Extension, 6, 5);
    filled.free_energy = 0;
    let mut open_ext = structure(2, StructureKind::Extension, 8, 5);
    open_ext.free_energy = 25;
    let mut w = empty_world();
    w.structures = vec![filled, open_ext];
    let unit = worker(11, 5, 5, 50, 50);
    let s = settle_task(
        &unit,
        &w,
        Task::DepositToStructure(StructureKind::Extension, 1),
        Action::TransferTo(1, 0),
        Outcome::Full,
    );
    assert_eq!(s, Settle::Switch(Task::DepositToStructure(StructureKind::Extension, 2)));
}

#[test]
fn pickup_plan_approaches_then_grabs() {
    let mut w = empty_world();
    w.dropped = vec![DroppedView { id: 3, pos: pos(9, 5), reachable: true, path_cost: 4 }];
    let unit = worker(2, 5, 5, 10, 50);
    assert_eq!(plan_task(&unit, &w, Task::Pickup(3)), Plan::Act(Action::MoveTo(3)));
    let close = worker(2, 8, 5, 10, 50);
    assert_eq!(plan_task(&close, &w, Task::Pickup(3)), Plan::Act(Action::PickupResource(3)));
}
