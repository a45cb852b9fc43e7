use terran_core::economy::{
    count_ordered, ideal_workers, process_structure_abilities, process_supply, train_workers,
    wants_supply, EconomyConfig,
};
use terran_core::geometry::Point;
use terran_core::ids::{
    RaceIds, BARRACKS, COMMAND_CENTER, MARINE, ORBITAL_COMMAND, REFINERY, SCV, SUPPLY_DEPOT,
    SUPPLY_DEPOT_LOWERED,
};
use terran_core::items::{ItemKind, ProductionItem};
use terran_core::ledger::{Cost, Ledger};
use terran_core::training::{train_army, train_army_unit, ArmyCosts, TrainingConfig};
use terran_core::ids::{CYCLONE, FACTORY, MEDIVAC, REAPER, STARPORT};
use terran_core::world::{Command, TypeCount, Unit, World};

const CONFIG: EconomyConfig = EconomyConfig {
    worker_cap: 80,
    workers_per_townhall: 16,
    workers_per_gas: 3,
    supply_from: 6720,
    supply_margin: 5,
    supply_margin_urgent: 2,
    upgrade_gate: BARRACKS,
    upgrade_wait: 12,
};

const COSTS: ArmyCosts = ArmyCosts {
    marine: Cost { minerals: 50, vespene: 0, supply: 1 },
    reaper: Cost { minerals: 50, vespene: 50, supply: 1 },
    cyclone: Cost { minerals: 150, vespene: 100, supply: 3 },
    medivac: Cost { minerals: 100, vespene: 100, supply: 2 },
};

const TRAINING: TrainingConfig =
    TrainingConfig { scouts_until: 4032, scouts_wanted: 1, support_wanted: 3 };

fn p(x: i32, y: i32) -> Point {
    Point { x, y }
}

fn world() -> World {
    World::empty(p(0, 0), p(10_000, 10_000))
}

fn count(type_id: u32, complete: u32, ordered: u32) -> TypeCount {
    TypeCount { type_id, complete, ordered }
}

fn worker_item() -> ProductionItem {
    ProductionItem {
        kind: ItemKind::Unit,
        id: SCV,
        cost: Cost { minerals: 50, vespene: 0, supply: 1 },
        producer: Some(COMMAND_CENTER),
        requirement: None,
    }
}

fn depot_item() -> ProductionItem {
    ProductionItem {
        kind: ItemKind::Structure,
        id: SUPPLY_DEPOT,
        cost: Cost { minerals: 100, vespene: 0, supply: 0 },
        producer: Some(SCV),
        requirement: None,
    }
}

fn structure(tag: u64, type_id: u32, x: i32, y: i32) -> Unit {
    Unit { structure: true, friendly: true, ..Unit::at(tag, type_id, p(x, y)) }
}

#[test]
fn ideal_workers_follow_town_halls_and_gas_up_to_the_cap() {
    let ids = RaceIds::terran();
    let mut w = world();
    assert_eq!(ideal_workers(&w, &ids, &CONFIG), 0);
    w.counts = vec![count(COMMAND_CENTER, 1, 0)];
    assert_eq!(ideal_workers(&w, &ids, &CONFIG), 16);
    w.counts = vec![count(COMMAND_CENTER, 1, 1), count(ORBITAL_COMMAND, 1, 0), count(REFINERY, 2, 1)];
    assert_eq!(ideal_workers(&w, &ids, &CONFIG), 57);
    w.counts = vec![count(COMMAND_CENTER, 4, 0), count(REFINERY, 5, 0)];
    assert_eq!(ideal_workers(&w, &ids, &CONFIG), 79);
    w.counts = vec![count(COMMAND_CENTER, 4, 0), count(REFINERY, 6, 0)];
    assert_eq!(ideal_workers(&w, &ids, &CONFIG), 80);
    w.counts = vec![count(COMMAND_CENTER, u32::MAX, u32::MAX), count(REFINERY, u32::MAX, 0)];
    assert_eq!(ideal_workers(&w, &ids, &CONFIG), 80);
}

#[test]
fn supply_is_due_late_when_little_is_left_and_none_is_coming() {
    let mut w = world();
    let depot = depot_item();
    w.game_loop = 6721;
    assert!(wants_supply(&w, &Ledger::new(100, 0, 11, 15), &depot, &CONFIG));
    assert!(!wants_supply(&w, &Ledger::new(100, 0, 10, 15), &depot, &CONFIG));
    assert!(!wants_supply(&w, &Ledger::new(99, 0, 11, 15), &depot, &CONFIG));
    w.game_loop = 6720;
    assert!(!wants_supply(&w, &Ledger::new(100, 0, 11, 15), &depot, &CONFIG));
    w.game_loop = 7000;
    w.counts = vec![count(SUPPLY_DEPOT, 3, 1)];
    assert_eq!(count_ordered(&w, SUPPLY_DEPOT), 1);
    assert!(!wants_supply(&w, &Ledger::new(100, 0, 13, 15), &depot, &CONFIG));
    assert!(wants_supply(&w, &Ledger::new(100, 0, 14, 15), &depot, &CONFIG));
    w.counts = vec![count(SUPPLY_DEPOT, 3, 2)];
    assert!(!wants_supply(&w, &Ledger::new(100, 0, 15, 15), &depot, &CONFIG));
}

#[test]
fn supply_is_paid_for_only_when_it_is_built() {
    let mut w = world();
    w.game_loop = 7000;
    w.workers = vec![Unit { orders: 1, collecting: true, ..Unit::at(1, SCV, p(0, 0)) }];
    let depot = depot_item();
    let mut ledger = Ledger::new(100, 0, 14, 15);
    assert_eq!(process_supply(&w, &mut ledger, &depot, None, &CONFIG), None);
    assert_eq!(ledger, Ledger::new(100, 0, 14, 15));
    assert_eq!(
        process_supply(&w, &mut ledger, &depot, Some(p(200, 200)), &CONFIG),
        Some(Command::Build { worker: 1, structure: SUPPLY_DEPOT, at: p(200, 200) })
    );
    assert_eq!(ledger, Ledger::new(0, 0, 14, 15));
    assert_eq!(process_supply(&w, &mut ledger, &depot, Some(p(200, 200)), &CONFIG), None);
}

#[test]
fn depots_lower_for_friends_and_rise_for_enemies() {
    let ids = RaceIds::terran();
    let mut w = world();
    w.structures = vec![
        structure(20, SUPPLY_DEPOT, 0, 0),
        structure(21, SUPPLY_DEPOT, 5000, 0),
        structure(22, SUPPLY_DEPOT_LOWERED, 0, 0),
        structure(23, BARRACKS, 0, 0),
    ];
    assert_eq!(process_structure_abilities(&w, &ids), Vec::new());
    w.everyone = vec![
        structure(23, BARRACKS, 0, 0),
        Unit { friendly: true, ..Unit::at(1, MARINE, p(300, 0)) },
        Unit::at(900, 105, p(4800, 0)),
    ];
    assert_eq!(
        process_structure_abilities(&w, &ids),
        vec![Command::LowerDepot { depot: 20 }, Command::RaiseDepot { depot: 21 }]
    );
}

#[test]
fn supply_drop_lands_at_the_nearest_understaffed_town_hall() {
    let ids = RaceIds::terran();
    let mut w = world();
    let hall = |tag: u64, type_id: u32, x: i32, ideal: u32, assigned: u32| Unit {
        ideal_harvesters: Some(ideal),
        assigned_harvesters: Some(assigned),
        ..structure(tag, type_id, x, 0)
    };
    w.townhalls = vec![
        Unit { can_call_mule: true, ..hall(10, ORBITAL_COMMAND, 0, 16, 16) },
        hall(11, COMMAND_CENTER, 6000, 16, 10),
        hall(12, COMMAND_CENTER, 3000, 16, 12),
        Unit { can_call_mule: true, ..hall(13, COMMAND_CENTER, 3000, 16, 12) },
        hall(14, ORBITAL_COMMAND, 100, 16, 16),
    ];
    w.mineral_fields = vec![Unit::at(300, 341, p(0, 500)), Unit::at(301, 341, p(3500, 0))];
    assert_eq!(
        process_structure_abilities(&w, &ids),
        vec![Command::CallMule { orbital: 10, mineral: 301 }]
    );
    w.mineral_fields = Vec::new();
    assert_eq!(process_structure_abilities(&w, &ids), Vec::new());
}

#[test]
fn workers_are_trained_up_to_the_ideal_and_the_ledger() {
    let ids = RaceIds::terran();
    let mut w = world();
    w.counts = vec![count(COMMAND_CENTER, 3, 0)];
    w.supply_workers = 46;
    w.townhalls = vec![
        structure(10, COMMAND_CENTER, 0, 0),
        Unit { orders: 1, ..structure(11, COMMAND_CENTER, 10, 0) },
        Unit { ready: false, ..structure(12, COMMAND_CENTER, 20, 0) },
        Unit { orders: 1, nearly_done: true, ..structure(13, COMMAND_CENTER, 30, 0) },
        structure(14, COMMAND_CENTER, 40, 0),
    ];
    let mut ledger = Ledger::new(500, 0, 50, 100);
    assert_eq!(
        train_workers(&w, &None, &worker_item(), &ids, &CONFIG, &mut ledger),
        vec![
            Command::Train { producer: 10, item: SCV },
            Command::Train { producer: 13, item: SCV },
        ]
    );
    assert_eq!(ledger, Ledger::new(400, 0, 52, 100));
    let mut poor = Ledger::new(99, 0, 50, 100);
    assert_eq!(
        train_workers(&w, &None, &worker_item(), &ids, &CONFIG, &mut poor),
        vec![Command::Train { producer: 10, item: SCV }]
    );
    assert_eq!(poor, Ledger::new(49, 0, 51, 100));
    let mut broke = Ledger::new(49, 0, 50, 100);
    assert_eq!(train_workers(&w, &None, &worker_item(), &ids, &CONFIG, &mut broke), Vec::new());
    w.supply_workers = 48;
    let mut satisfied = Ledger::new(500, 0, 50, 100);
    assert_eq!(
        train_workers(&w, &None, &worker_item(), &ids, &CONFIG, &mut satisfied),
        Vec::new()
    );
    assert_eq!(satisfied, Ledger::new(500, 0, 50, 100));
}

#[test]
fn workers_wait_for_the_town_hall_upgrade() {
    let ids = RaceIds::terran();
    let mut w = world();
    w.counts = vec![count(COMMAND_CENTER, 1, 0)];
    w.townhalls = vec![structure(10, COMMAND_CENTER, 0, 0)];
    w.structures = vec![
        Unit { ready: false, build_left: 500, ..structure(50, BARRACKS, 900, 0) },
        Unit { ready: false, build_left: 11, ..structure(51, BARRACKS, 100, 0) },
    ];
    let orbital = Some(ProductionItem {
        kind: ItemKind::Structure,
        id: ORBITAL_COMMAND,
        cost: Cost { minerals: 150, vespene: 0, supply: 0 },
        producer: Some(COMMAND_CENTER),
        requirement: Some(BARRACKS),
    });
    let mut ledger = Ledger::new(500, 0, 12, 15);
    assert_eq!(train_workers(&w, &orbital, &worker_item(), &ids, &CONFIG, &mut ledger), Vec::new());
    assert_eq!(ledger, Ledger::new(500, 0, 12, 15));
    w.structures[1].build_left = 12;
    assert_eq!(
        train_workers(&w, &orbital, &worker_item(), &ids, &CONFIG, &mut ledger),
        vec![Command::Train { producer: 10, item: SCV }]
    );
    w.structures[1].build_left = 0;
    let depot = Some(depot_item());
    assert_eq!(
        train_workers(&w, &depot, &worker_item(), &ids, &CONFIG, &mut ledger),
        vec![Command::Train { producer: 10, item: SCV }]
    );
    assert_eq!(ledger, Ledger::new(400, 0, 14, 15));
}

#[test]
fn army_is_trained_by_every_structure_with_room() {
    let mut w = world();
    w.game_loop = 5000;
    w.structures = vec![
        structure(50, BARRACKS, 0, 0),
        Unit { has_reactor: true, active: true, orders: 1, ..structure(51, BARRACKS, 0, 0) },
        Unit { active: true, orders: 1, ..structure(52, BARRACKS, 0, 0) },
        Unit { ready: false, ..structure(53, FACTORY, 0, 0) },
        structure(54, FACTORY, 0, 0),
        structure(55, STARPORT, 0, 0),
        structure(56, SUPPLY_DEPOT, 0, 0),
    ];
    let mut ledger = Ledger::new(1000, 1000, 0, 100);
    assert_eq!(
        train_army(&w, &COSTS, &TRAINING, &mut ledger),
        vec![
            Command::Train { producer: 50, item: MARINE },
            Command::Train { producer: 51, item: MARINE },
            Command::Train { producer: 51, item: MARINE },
            Command::Train { producer: 54, item: CYCLONE },
            Command::Train { producer: 55, item: MEDIVAC },
        ]
    );
    assert_eq!(ledger, Ledger::new(600, 800, 8, 100));
}

#[test]
fn army_training_stops_where_the_ledger_ends() {
    let mut w = world();
    w.game_loop = 5000;
    w.structures = vec![
        Unit { has_reactor: true, ..structure(51, BARRACKS, 0, 0) },
        structure(54, FACTORY, 0, 0),
        structure(50, BARRACKS, 0, 0),
    ];
    let mut ledger = Ledger::new(120, 1000, 0, 100);
    assert_eq!(
        train_army(&w, &COSTS, &TRAINING, &mut ledger),
        vec![
            Command::Train { producer: 51, item: MARINE },
            Command::Train { producer: 51, item: MARINE },
        ]
    );
    assert_eq!(ledger, Ledger::new(20, 1000, 2, 100));
    let mut no_supply = Ledger::new(1000, 1000, 99, 100);
    assert_eq!(
        train_army(&w, &COSTS, &TRAINING, &mut no_supply),
        vec![Command::Train { producer: 51, item: MARINE }]
    );
}

#[test]
fn one_scout_is_trained_early() {
    let mut w = world();
    w.structures = vec![structure(50, BARRACKS, 0, 0)];
    w.game_loop = 4031;
    let mut ledger = Ledger::new(1000, 1000, 0, 100);
    assert_eq!(
        train_army(&w, &COSTS, &TRAINING, &mut ledger),
        vec![Command::Train { producer: 50, item: REAPER }]
    );
    let mut no_gas = Ledger::new(1000, 49, 0, 100);
    assert_eq!(
        train_army(&w, &COSTS, &TRAINING, &mut no_gas),
        vec![Command::Train { producer: 50, item: MARINE }]
    );
    w.counts = vec![count(REAPER, 1, 0)];
    assert_eq!(
        train_army(&w, &COSTS, &TRAINING, &mut ledger),
        vec![Command::Train { producer: 50, item: MARINE }]
    );
    w.counts = Vec::new();
    w.game_loop = 4032;
    assert_eq!(
        train_army(&w, &COSTS, &TRAINING, &mut ledger),
        vec![Command::Train { producer: 50, item: MARINE }]
    );
}

#[test]
fn support_is_trained_up_to_its_number() {
    let mut w = world();
    w.game_loop = 9000;
    w.structures = vec![structure(55, STARPORT, 0, 0)];
    w.counts = vec![count(MEDIVAC, 2, 5)];
    let mut ledger = Ledger::new(1000, 1000, 0, 100);
    assert_eq!(
        train_army(&w, &COSTS, &TRAINING, &mut ledger),
        vec![Command::Train { producer: 55, item: MEDIVAC }]
    );
    w.counts = vec![count(MEDIVAC, 3, 0)];
    assert_eq!(train_army(&w, &COSTS, &TRAINING, &mut ledger), Vec::new());
}

#[test]
fn single_unit_is_queued_and_paid_for() {
    let b = structure(50, BARRACKS, 0, 0);
    let mut ledger = Ledger::new(60, 0, 0, 10);
    let mut orders = Vec::new();
    train_army_unit(&b, MARINE, COSTS.marine, &mut ledger, &mut orders);
    train_army_unit(&b, MARINE, COSTS.marine, &mut ledger, &mut orders);
    assert_eq!(orders, vec![Command::Train { producer: 50, item: MARINE }]);
    assert_eq!(ledger, Ledger::new(10, 0, 1, 10));
}
