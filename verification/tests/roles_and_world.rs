use screeps_core::builder::builder_run;
use screeps_core::geom::Pos;
use screeps_core::harvester::{harvester_run, pick_closest_spot};
use screeps_core::hauler::{
    find_closest_container, find_closest_depositable, get_value_to_withdraw, hauler_run,
};
use screeps_core::memory::{CreepMemory, Root};
use screeps_core::policy::{choose_task, PolicyDraws};
use screeps_core::registry::Registry;
use screeps_core::roles::{body_cost, Part, Role};
use screeps_core::scheduler::{ensure_role, plan_spawn};
use screeps_core::select::{
    find_closest_container_from_source, find_creep, find_spawn_with_free, find_tower,
    find_unfilled_extension, find_unfilled_extension_excluding, lowest_hits_damaged,
    nearest_dropped, pick_closest_energy_source,
};
use screeps_core::task::{Action, StructureKind, Task};
use screeps_core::world::{
    DroppedView, PeerView, SiteView, SourceView, StructureView, Unit, WorldSnapshot,
};

fn pos(x: u32, y: u32) -> Pos {
    Pos { x, y }
}

fn source(id: u64, x: u32, y: u32, active: bool, reachable: bool, path_cost: u32) -> SourceView {
    SourceView { id, pos: pos(x, y), active, reachable, path_cost }
}

fn structure(id: u64, kind: StructureKind, x: u32, y: u32) -> StructureView {
    StructureView {
        id,
        kind,
        pos: pos(x, y),
        hits: 100,
        hits_max: 100,
        attackable: true,
        my: true,
        free_energy: 0,
        used_energy: 0,
        capacity: 0,
    }
}

fn empty_world() -> WorldSnapshot {
    WorldSnapshot {
        sources: Vec::new(),
        structures: Vec::new(),
        sites: Vec::new(),
        dropped: Vec::new(),
        hostiles: Vec::new(),
        peers: Vec::new(),
        unit_count: 1,
    }
}

fn worker(id: u64, x: u32, y: u32, carried: u32, capacity: u32) -> Unit {
    Unit { id, pos: pos(x, y), carried, capacity, spawning: false, role: Role::General }
}

fn draws(deposit: u32, repair: u32, controller: u32) -> PolicyDraws {
    PolicyDraws { deposit_draw: deposit, repair_draw: repair, controller_draw: controller }
}

#[test]
fn range_is_chebyshev() {
    assert_eq!(pos(5, 5).range_to(&pos(8, 6)), 3);
    assert_eq!(pos(5, 5).range_to(&pos(5, 5)), 0);
    assert_eq!(pos(2, 9).range_to(&pos(4, 3)), 6);
    assert!(pos(5, 5).is_near_to(&pos(6, 6)));
    assert!(!pos(5, 5).is_near_to(&pos(7, 5)));
}

#[test]
fn distinct_tiles_have_distinct_keys() {
    assert_ne!(pos(1, 2).key(), pos(2, 1).key());
    assert_eq!(pos(3, 4).key(), pos(3, 4).key());
}

#[test]
fn nearest_source_skips_inactive_and_unreachable() {
    let mut w = empty_world();
    w.sources = vec![
        source(1, 0, 0, false, true, 1),
        source(2, 0, 0, true, false, 2),
        source(3, 0, 0, true, true, 9),
        source(4, 0, 0, true, true, 4),
    ];
    assert_eq!(pick_closest_energy_source(&w).map(|s| s.id), Some(4));
}

#[test]
fn nearest_source_tie_prefers_earlier() {
    let mut w = empty_world();
    w.sources = vec![
        source(1, 0, 0, true, true, 4),
        source(2, 0, 0, true, true, 4),
    ];
    assert_eq!(pick_closest_energy_source(&w).map(|s| s.id), Some(1));
}

#[test]
fn unfilled_extension_is_nearest_with_room() {
    let mut far = structure(1, StructureKind::Extension, 20, 20);
    far.free_energy = 5;
    let mut near = structure(2, StructureKind::Extension, 6, 6);
    near.free_energy = 5;
    let mut full = structure(3, StructureKind::Extension, 5, 6);
    full.free_energy = 0;
    let structures = vec![far, near, full];
    assert_eq!(find_unfilled_extension(&structures, pos(5, 5)).map(|s| s.id), Some(2));
    assert_eq!(
        find_unfilled_extension_excluding(&structures, pos(5, 5), Some(2)).map(|s| s.id),
        Some(1)
    );
}

#[test]
fn spawn_pick_takes_the_last_with_room() {
    let mut a = structure(1, StructureKind::Spawn, 1, 1);
    a.free_energy = 10;
    let mut b = structure(2, StructureKind::Spawn, 2, 2);
    b.free_energy = 10;
    let mut c = structure(3, StructureKind::Spawn, 3, 3);
    c.free_energy = 0;
    assert_eq!(find_spawn_with_free(&vec![a, b, c]).map(|s| s.id), Some(2));
}

#[test]
fn tower_pick_needs_reserve_and_takes_least_missing() {
    let mut low = structure(1, StructureKind::Tower, 1, 1);
    low.free_energy = 100;
    let mut mid = structure(2, StructureKind::Tower, 2, 2);
    mid.free_energy = 200;
    let mut high = structure(3, StructureKind::Tower, 3, 3);
    high.free_energy = 700;
    assert_eq!(find_tower(&vec![low, mid, high]).map(|s| s.id), Some(2));
    assert_eq!(find_tower(&vec![low]), None);
}

#[test]
fn repair_pick_is_lowest_hits_below_a_third() {
    let mut almost_dead = structure(1, StructureKind::Other, 1, 1);
    almost_dead.hits = 5;
    almost_dead.hits_max = 100;
    let mut hurt = structure(2, StructureKind::Other, 2, 2);
    hurt.hits = 20;
    hurt.hits_max = 100;
    let mut healthy = structure(3, StructureKind::Other, 3, 3);
    healthy.hits = 90;
    healthy.hits_max = 100;
    let mut controller = structure(4, StructureKind::Controller, 4, 4);
    controller.hits = 1;
    controller.hits_max = 100;
    let mut unattackable = structure(5, StructureKind::Other, 5, 5);
    unattackable.hits = 1;
    unattackable.hits_max = 100;
    unattackable.attackable = false;
    let structures = vec![hurt, healthy, controller, unattackable, almost_dead];
    assert_eq!(lowest_hits_damaged(&structures).map(|s| s.id), Some(1));
}

#[test]
fn policy_prefers_pickup_then_harvest_for_units_with_room() {
    let mut w = empty_world();
    w.sources = vec![source(42, 8, 5, true, true, 3)];
    w.dropped = vec![DroppedView { id: 7, pos: pos(5, 6), reachable: true, path_cost: 1 }];
    let unit = worker(1, 5, 5, 0, 50);
    assert_eq!(choose_task(&unit, &w, draws(0, 0, 0)), Some(Task::Pickup(7)));
    w.dropped.clear();
    assert_eq!(choose_task(&unit, &w, draws(0, 0, 0)), Some(Task::Harvest(42)));
    w.sources.clear();
    assert_eq!(choose_task(&unit, &w, draws(0, 0, 0)), None);
}

#[test]
fn policy_deposit_precedence_is_extension_first() {
    let mut w = empty_world();
    let mut ext = structure(1, StructureKind::Extension, 9, 9);
    ext.free_energy = 10;
    let mut spawn = structure(2, StructureKind::Spawn, 6, 6);
    spawn.free_energy = 10;
    let mut storage = structure(3, StructureKind::Storage, 7, 7);
    storage.free_energy = 500;
    w.structures = vec![spawn, storage, ext];
    let unit = worker(1, 5, 5, 50, 50);
    assert_eq!(
        choose_task(&unit, &w, draws(7, 0, 0)),
        Some(Task::DepositToStructure(StructureKind::Extension, 1))
    );
    // Without the extension the spawn is next, then the storage.
    w.structures = vec![spawn, storage];
    assert_eq!(
        choose_task(&unit, &w, draws(7, 0, 0)),
        Some(Task::DepositToStructure(StructureKind::Spawn, 2))
    );
    w.structures = vec![storage];
    assert_eq!(
        choose_task(&unit, &w, draws(7, 0, 0)),
        Some(Task::DepositToStructure(StructureKind::Storage, 3))
    );
}

#[test]
fn policy_offers_towers_only_to_large_or_threatened_colonies() {
    let mut w = empty_world();
    let mut tower = structure(4, StructureKind::Tower, 8, 8);
    tower.free_energy = 400;
    w.structures = vec![tower];
    let unit = worker(1, 5, 5, 50, 50);
    w.unit_count = 6;
    assert_eq!(choose_task(&unit, &w, draws(0, 0, 0)), None);
    w.unit_count = 11;
    assert_eq!(
        choose_task(&unit, &w, draws(0, 0, 0)),
        Some(Task::DepositToStructure(StructureKind::Tower, 4))
    );
    w.unit_count = 6;
    w.hostiles = vec![99];
    assert_eq!(
        choose_task(&unit, &w, draws(0, 0, 0)),
        Some(Task::DepositToStructure(StructureKind::Tower, 4))
    );
}

#[test]
fn policy_repair_draw_picks_most_damaged() {
    let mut w = empty_world();
    let mut hurt = structure(6, StructureKind::Other, 9, 9);
    hurt.hits = 3;
    hurt.hits_max = 100;
    w.structures = vec![hurt];
    let unit = worker(1, 5, 5, 50, 50);
    assert_eq!(choose_task(&unit, &w, draws(8, 0, 0)), Some(Task::Repair(6)));
}

#[test]
fn policy_build_and_upgrade_branches() {
    let mut w = empty_world();
    w.sites = vec![SiteView {
        id: 12,
        pos: pos(9, 9),
        kind: StructureKind::Extension,
        reachable: true,
        path_cost: 4,
    }];
    let mut controller = structure(13, StructureKind::Controller, 25, 25);
    controller.my = false;
    controller.attackable = false;
    w.structures = vec![controller];
    let unit = worker(1, 5, 5, 50, 50);
    // Repair flow with nothing to repair falls through to building.
    assert_eq!(choose_task(&unit, &w, draws(8, 0, 0)), Some(Task::Build(12)));
    assert_eq!(choose_task(&unit, &w, draws(8, 1, 0)), Some(Task::Build(12)));
    // The other draw goes straight for the controller.
    assert_eq!(choose_task(&unit, &w, draws(8, 1, 1)), Some(Task::UpgradeController(13)));
    // A site that is really the controller upgrades it instead.
    w.sites[0].kind = StructureKind::Controller;
    assert_eq!(choose_task(&unit, &w, draws(8, 1, 0)), Some(Task::UpgradeController(13)));
}

#[test]
fn find_role_classifies_bodies() {
    let stationary = vec![Part::Work, Part::Work, Part::Move];
    assert_eq!(Role::find_role(&stationary, 4), Some(Role::Harvester));
    let mut big = Vec::new();
    for _ in 0..5 {
        big.push(Part::Carry);
        big.push(Part::Move);
        big.push(Part::Move);
    }
    assert_eq!(big.len(), 15);
    assert_eq!(Role::find_role(&big, 0), Some(Role::Hauler));
    assert_eq!(Role::find_role(&big, 3), Some(Role::Builder));
    let worker_body = vec![Part::Work, Part::Work, Part::Move, Part::Move];
    assert_eq!(Role::find_role(&worker_body, 4), Some(Role::Builder));
    let carrier = vec![Part::Carry, Part::Move, Part::Move];
    assert_eq!(Role::find_role(&carrier, 4), Some(Role::Hauler));
}

#[test]
fn find_role_to_spawn_follows_desired_counts() {
    let none: Vec<Role> = Vec::new();
    // Harvesters are only asked for once the colony exceeds two units.
    assert_eq!(Role::find_role_to_spawn(&none, 2), Some(Role::Hauler));
    assert_eq!(Role::find_role_to_spawn(&none, 3), Some(Role::Harvester));
    let settled = vec![
        Role::Harvester,
        Role::Harvester,
        Role::Hauler,
        Role::Hauler,
        Role::Hauler,
        Role::Hauler,
        Role::Hauler,
    ];
    assert_eq!(Role::find_role_to_spawn(&settled, 8), Some(Role::Builder));
    let mut complete = settled.clone();
    complete.push(Role::Builder);
    assert_eq!(Role::find_role_to_spawn(&complete, 9), None);
}

#[test]
fn get_body_scales_with_energy() {
    assert_eq!(Role::Harvester.get_body(200, 300, 1), None);
    assert_eq!(
        Role::Harvester.get_body(300, 300, 1),
        Some(vec![Part::Work, Part::Work, Part::Move])
    );
    assert_eq!(
        Role::Harvester.get_body(450, 450, 1),
        Some(vec![Part::Work, Part::Work, Part::Move, Part::Work, Part::Work])
    );
    assert_eq!(
        Role::Hauler.get_body(300, 300, 1),
        Some(vec![
            Part::Carry,
            Part::Move,
            Part::Move,
            Part::Carry,
            Part::Move,
            Part::Move,
        ])
    );
    // A large colony plans against full capacity rather than what is banked.
    assert_eq!(
        Role::Harvester.get_body(300, 400, 4),
        Some(vec![Part::Work, Part::Work, Part::Move, Part::Work])
    );
}

#[test]
fn body_cost_sums_part_prices() {
    assert_eq!(body_cost(&vec![Part::Work, Part::Work, Part::Move]), 250);
    assert_eq!(body_cost(&vec![Part::Carry, Part::Move, Part::Move]), 150);
    assert_eq!(body_cost(&Vec::new()), 0);
}

#[test]
fn plan_spawn_checks_the_price() {
    let none: Vec<Role> = Vec::new();
    // A hauler at three hundred energy costs exactly three hundred.
    let choice = plan_spawn(&none, 2, 300, 300, );
    let (role, body) = choice.expect("expected a spawn choice");
    assert_eq!(role, Role::Hauler);
    assert_eq!(body.len(), 6);
    // Asking for more body than the room has banked spawns nothing: the
    // plan is priced against full capacity, the check against the bank.
    assert_eq!(plan_spawn(&none, 4, 300, 1000), None);
    assert_eq!(plan_spawn(&none, 2, 200, 300), None);
}

#[test]
fn ensure_role_caches_once() {
    let mut cache: Registry<Role> = Registry::new();
    let body = vec![Part::Work, Part::Work, Part::Move];
    ensure_role(&mut cache, 5, &body, 4);
    assert_eq!(cache.get(5), Some(&Role::Harvester));
    // A later body change does not disturb the cached tag.
    let other = vec![Part::Carry, Part::Move, Part::Move];
    ensure_role(&mut cache, 5, &other, 4);
    assert_eq!(cache.get(5), Some(&Role::Harvester));
}

#[test]
fn role_tags_spell_out() {
    assert_eq!(Role::Harvester.to_string(), "HARVESTER");
    assert_eq!(Role::Free.to_string(), "WILDLING");
}

#[test]
fn hauler_with_load_deposits_extension_first() {
    let mut w = empty_world();
    let mut spawn = structure(2, StructureKind::Spawn, 6, 6);
    spawn.free_energy = 100;
    let mut ext = structure(1, StructureKind::Extension, 5, 6);
    ext.free_energy = 10;
    w.structures = vec![ext, spawn];
    let unit = worker(1, 5, 5, 40, 50);
    let dep = find_closest_depositable(&unit, &w, false).expect("expected a depositable");
    assert_eq!(dep.id, 1);
    assert_eq!(dep.amount, 10);
    let mut reg: Registry<Task> = Registry::new();
    assert_eq!(
        hauler_run(&mut reg, &unit, &w),
        Some(Action::TransferTo(1, 10))
    );
    // Without an unfilled extension, the spawn is next in line.
    w.structures = vec![spawn];
    let dep = find_closest_depositable(&unit, &w, false).expect("expected a depositable");
    assert_eq!(dep.id, 2);
    assert_eq!(dep.amount, 40);
}

#[test]
fn hauler_hands_storage_load_to_builder() {
    let mut w = empty_world();
    let mut storage = structure(3, StructureKind::Storage, 7, 7);
    storage.free_energy = 1000;
    w.structures = vec![storage];
    w.peers = vec![PeerView {
        id: 30,
        pos: pos(9, 9),
        carried: 10,
        capacity: 50,
        role: Role::Builder,
    }];
    let unit = worker(1, 5, 5, 40, 50);
    let mut reg: Registry<Task> = Registry::new();
    assert_eq!(hauler_run(&mut reg, &unit, &w), None);
    assert_eq!(reg.get(1), Some(&Task::TransferToUnit(30)));
}

#[test]
fn empty_hauler_refills_from_container_then_floor_then_storage() {
    let unit = worker(1, 5, 5, 0, 50);
    let mut w = empty_world();
    let mut container = structure(8, StructureKind::Container, 6, 5);
    container.used_energy = 200;
    w.structures = vec![container];
    let dep = find_closest_container(&unit, &w).expect("expected a container");
    assert_eq!(dep.id, 8);
    assert_eq!(dep.amount, 50);
    let mut reg: Registry<Task> = Registry::new();
    assert_eq!(hauler_run(&mut reg, &unit, &w), Some(Action::WithdrawFrom(8, 50)));

    // A container holding less than a full load is passed over for the
    // floor.
    w.structures[0].used_energy = 30;
    w.dropped = vec![DroppedView { id: 3, pos: pos(5, 6), reachable: true, path_cost: 1 }];
    assert_eq!(hauler_run(&mut reg, &unit, &w), Some(Action::PickupResource(3)));

    // With nothing on the floor either, a stocked storage serves.
    w.dropped.clear();
    let mut storage = structure(9, StructureKind::Storage, 6, 6);
    storage.used_energy = 500;
    w.structures.push(storage);
    assert_eq!(hauler_run(&mut reg, &unit, &w), Some(Action::WithdrawFrom(9, 50)));
}

#[test]
fn withdraw_amount_is_min() {
    assert_eq!(get_value_to_withdraw(50, 200), 50);
    assert_eq!(get_value_to_withdraw(50, 20), 20);
    assert_eq!(get_value_to_withdraw(0, 20), 0);
}

#[test]
fn harvester_claims_a_free_container_spot() {
    let mut w = empty_world();
    w.sources = vec![source(42, 10, 10, true, true, 3)];
    w.structures = vec![structure(8, StructureKind::Container, 11, 10)];
    let unit = worker(1, 5, 5, 0, 50);
    assert_eq!(pick_closest_spot(&unit, &w), Some((42, pos(11, 10))));
    assert_eq!(harvester_run(&unit, &w), Some(Action::MoveToPos(pos(11, 10))));
    // Standing on the spot, the harvester works the source.
    let seated = worker(1, 11, 10, 0, 50);
    assert_eq!(harvester_run(&seated, &w), Some(Action::HarvestFrom(42)));
}

#[test]
fn harvester_skips_occupied_spots() {
    let mut w = empty_world();
    w.sources = vec![source(42, 10, 10, true, true, 3)];
    w.structures = vec![structure(8, StructureKind::Container, 11, 10)];
    w.peers = vec![PeerView {
        id: 60,
        pos: pos(11, 10),
        carried: 0,
        capacity: 50,
        role: Role::Harvester,
    }];
    let unit = worker(1, 5, 5, 0, 50);
    assert_eq!(pick_closest_spot(&unit, &w), None);
    // The occupant itself still sees its own spot as free.
    let seated = worker(60, 11, 10, 0, 50);
    assert_eq!(pick_closest_spot(&seated, &w), Some((42, pos(11, 10))));
}

#[test]
fn container_for_source_is_nearest_of_mine() {
    let near = structure(1, StructureKind::Container, 11, 10);
    let far = structure(2, StructureKind::Container, 20, 20);
    let mut foreign = structure(3, StructureKind::Container, 10, 11);
    foreign.my = false;
    let structures = vec![far, foreign, near];
    assert_eq!(
        find_closest_container_from_source(&structures, pos(10, 10)).map(|s| s.id),
        Some(1)
    );
}

#[test]
fn builder_builds_then_repairs() {
    let mut w = empty_world();
    w.sites = vec![SiteView {
        id: 12,
        pos: pos(6, 5),
        kind: StructureKind::Extension,
        reachable: true,
        path_cost: 1,
    }];
    let unit = worker(1, 5, 5, 30, 50);
    assert_eq!(builder_run(&unit, &w), Some(Action::BuildSite(12)));
    w.sites[0].pos = pos(20, 20);
    assert_eq!(builder_run(&unit, &w), Some(Action::MoveToPos(pos(20, 20))));
    w.sites.clear();
    let mut hurt = structure(6, StructureKind::Other, 7, 5);
    hurt.hits = 3;
    hurt.hits_max = 100;
    w.structures = vec![hurt];
    assert_eq!(builder_run(&unit, &w), Some(Action::RepairStructure(6)));
    // An empty builder does nothing.
    let spent = worker(1, 5, 5, 0, 50);
    assert_eq!(builder_run(&spent, &w), None);
}

#[test]
fn peer_hand_off_prefers_closest_builder() {
    let peers = vec![
        PeerView { id: 1, pos: pos(9, 9), carried: 0, capacity: 50, role: Role::Builder },
        PeerView { id: 2, pos: pos(6, 6), carried: 0, capacity: 50, role: Role::Builder },
        PeerView { id: 3, pos: pos(5, 6), carried: 50, capacity: 50, role: Role::Builder },
        PeerView { id: 4, pos: pos(5, 6), carried: 0, capacity: 50, role: Role::Hauler },
    ];
    assert_eq!(find_creep(&peers, pos(5, 5)).map(|p| p.id), Some(2));
}

#[test]
fn janitor_sweeps_dead_records() {
    let mut root = Root::new();
    root.creeps.push((
        String::from("alpha"),
        CreepMemory { _move: None, role: Some(Role::Harvester) },
    ));
    root.creeps.push((String::from("beta"), CreepMemory { _move: None, role: None }));
    root.creeps.push((String::from("gamma"), CreepMemory { _move: None, role: None }));
    let live = vec![String::from("alpha"), String::from("gamma")];
    root.clean_up(&live);
    let names: Vec<&str> = root.creeps.iter().map(|e| e.0.as_str()).collect();
    assert_eq!(names, vec!["alpha", "gamma"]);
}

#[test]
fn janitor_keeps_everything_when_all_live() {
    let mut root = Root::new();
    root.creeps.push((String::from("alpha"), CreepMemory { _move: None, role: None }));
    let live = vec![String::from("alpha")];
    root.clean_up(&live);
    assert_eq!(root.creeps.len(), 1);
}

#[test]
fn role_assignment_fills_only_missing() {
    let mut root = Root::new();
    root.creeps.push((
        String::from("alpha"),
        CreepMemory { _move: None, role: Some(Role::Hauler) },
    ));
    root.creeps.push((String::from("beta"), CreepMemory { _move: None, role: None }));
    let alpha = String::from("alpha");
    let beta = String::from("beta");
    let ghost = String::from("ghost");
    root.set_role_if_missing(&alpha, Role::Harvester);
    assert_eq!(
        root.get_creep_memory(&alpha).and_then(|m| m.role),
        Some(Role::Hauler)
    );
    root.set_role_if_missing(&beta, Role::Harvester);
    assert_eq!(
        root.get_creep_memory(&beta).and_then(|m| m.role),
        Some(Role::Harvester)
    );
    root.set_role_if_missing(&ghost, Role::Harvester);
    assert!(root.get_creep_memory(&ghost).is_none());
}

#[test]
fn nearest_dropped_prefers_shortest_path() {
    let mut w = empty_world();
    w.dropped = vec![
        DroppedView { id: 1, pos: pos(1, 1), reachable: true, path_cost: 9 },
        DroppedView { id: 2, pos: pos(2, 2), reachable: false, path_cost: 1 },
        DroppedView { id: 3, pos: pos(3, 3), reachable: true, path_cost: 2 },
    ];
    assert_eq!(nearest_dropped(&w).map(|d| d.id), Some(3));
}
