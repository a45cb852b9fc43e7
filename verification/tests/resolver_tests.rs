use terran_core::geometry::Point;
use terran_core::ids::{
    canonical, BARRACKS, COMMAND_CENTER, MARINE, ORBITAL_COMMAND, REFINERY, SUPPLY_DEPOT,
    SUPPLY_DEPOT_LOWERED,
};
use terran_core::items::{ItemKind, ProductionItem};
use terran_core::ledger::Cost;
use terran_core::resolver::{count_group, resolve, Leniency, ResolverConfig};
use terran_core::world::{TypeCount, World};

fn item(kind: ItemKind, id: u32, minerals: u32) -> ProductionItem {
    ProductionItem {
        kind,
        id,
        cost: Cost { minerals, vespene: 0, supply: 0 },
        producer: None,
        requirement: None,
    }
}

fn opening_list() -> Vec<ProductionItem> {
    vec![
        item(ItemKind::Structure, SUPPLY_DEPOT, 100),
        item(ItemKind::Structure, BARRACKS, 150),
        item(ItemKind::Structure, REFINERY, 75),
    ]
}

fn world_with(counts: Vec<TypeCount>) -> World {
    let mut world = World::empty(Point { x: 0, y: 0 }, Point { x: 10_000, y: 10_000 });
    world.counts = counts;
    world
}

fn count(type_id: u32, complete: u32, ordered: u32) -> TypeCount {
    TypeCount { type_id, complete, ordered }
}

const UNITS: Leniency =
    Leniency { structures: false, units: true, addons: false, upgrades: false };

const STRICT: ResolverConfig = ResolverConfig { relax_from: u32::MAX, relax: UNITS };

#[test]
fn first_item_is_resolved_when_nothing_is_built() {
    let world = world_with(vec![count(COMMAND_CENTER, 1, 0)]);
    let next = resolve(&opening_list(), &world, COMMAND_CENTER, &STRICT);
    assert_eq!(next.map(|i| i.id), Some(SUPPLY_DEPOT));
}

#[test]
fn second_item_is_resolved_once_the_first_is_counted() {
    let world = world_with(vec![count(COMMAND_CENTER, 1, 0), count(SUPPLY_DEPOT, 1, 0)]);
    let next = resolve(&opening_list(), &world, COMMAND_CENTER, &STRICT);
    assert_eq!(next.map(|i| i.id), Some(BARRACKS));
}

#[test]
fn an_ordered_structure_counts_as_owned() {
    let world = world_with(vec![
        count(COMMAND_CENTER, 1, 0),
        count(SUPPLY_DEPOT, 0, 1),
        count(BARRACKS, 0, 1),
    ]);
    let next = resolve(&opening_list(), &world, COMMAND_CENTER, &STRICT);
    assert_eq!(next.map(|i| i.id), Some(REFINERY));
}

#[test]
fn exhausted_list_resolves_to_none() {
    let world = world_with(vec![
        count(COMMAND_CENTER, 1, 0),
        count(SUPPLY_DEPOT, 1, 0),
        count(BARRACKS, 1, 0),
        count(REFINERY, 1, 0),
    ]);
    assert_eq!(resolve(&opening_list(), &world, COMMAND_CENTER, &STRICT), None);
}

#[test]
fn missing_town_hall_resolves_to_none() {
    let world = world_with(vec![count(SUPPLY_DEPOT, 1, 0)]);
    assert_eq!(resolve(&opening_list(), &world, COMMAND_CENTER, &STRICT), None);
}

#[test]
fn empty_list_resolves_to_none() {
    let world = world_with(vec![count(COMMAND_CENTER, 1, 0)]);
    assert_eq!(resolve(&Vec::new(), &world, COMMAND_CENTER, &STRICT), None);
}

#[test]
fn repeated_items_need_repeated_counts() {
    let list = vec![
        item(ItemKind::Structure, SUPPLY_DEPOT, 100),
        item(ItemKind::Structure, SUPPLY_DEPOT, 100),
        item(ItemKind::Structure, BARRACKS, 150),
    ];
    let one = world_with(vec![count(COMMAND_CENTER, 1, 0), count(SUPPLY_DEPOT, 1, 0)]);
    assert_eq!(resolve(&list, &one, COMMAND_CENTER, &STRICT).map(|i| i.id), Some(SUPPLY_DEPOT));
    let two = world_with(vec![count(COMMAND_CENTER, 1, 0), count(SUPPLY_DEPOT, 2, 0)]);
    assert_eq!(resolve(&list, &two, COMMAND_CENTER, &STRICT).map(|i| i.id), Some(BARRACKS));
}

#[test]
fn town_hall_upgrade_asks_for_a_second_town_hall() {
    let list = vec![
        item(ItemKind::Structure, ORBITAL_COMMAND, 150),
        item(ItemKind::Structure, BARRACKS, 150),
    ];
    let one_hall = world_with(vec![count(COMMAND_CENTER, 1, 0)]);
    assert_eq!(
        resolve(&list, &one_hall, COMMAND_CENTER, &STRICT).map(|i| i.id),
        Some(ORBITAL_COMMAND)
    );
    let two_halls = world_with(vec![count(COMMAND_CENTER, 1, 0), count(ORBITAL_COMMAND, 1, 0)]);
    assert_eq!(resolve(&list, &two_halls, COMMAND_CENTER, &STRICT).map(|i| i.id), Some(BARRACKS));
}

#[test]
fn lowered_depot_counts_as_depot() {
    let world = world_with(vec![count(COMMAND_CENTER, 1, 0), count(SUPPLY_DEPOT_LOWERED, 1, 0)]);
    assert_eq!(count_group(&world, SUPPLY_DEPOT), 1);
    let next = resolve(&opening_list(), &world, COMMAND_CENTER, &STRICT);
    assert_eq!(next.map(|i| i.id), Some(BARRACKS));
}

#[test]
fn missing_unit_gates_only_before_the_deadline() {
    let list = vec![
        item(ItemKind::Unit, MARINE, 50),
        item(ItemKind::Structure, BARRACKS, 150),
        item(ItemKind::Structure, REFINERY, 75),
    ];
    let config = ResolverConfig { relax_from: 6720, relax: UNITS };
    let mut world = world_with(vec![count(COMMAND_CENTER, 1, 0), count(BARRACKS, 1, 0)]);
    world.game_loop = 6719;
    assert_eq!(resolve(&list, &world, COMMAND_CENTER, &config).map(|i| i.id), Some(MARINE));
    world.game_loop = 6720;
    assert_eq!(resolve(&list, &world, COMMAND_CENTER, &config).map(|i| i.id), Some(REFINERY));
}

#[test]
fn satisfied_item_added_in_front_changes_nothing() {
    let world = world_with(vec![
        count(COMMAND_CENTER, 1, 0),
        count(SUPPLY_DEPOT, 1, 0),
        count(REFINERY, 5, 0),
    ]);
    let before = resolve(&opening_list(), &world, COMMAND_CENTER, &STRICT);
    for k in 0..=3 {
        let mut longer = opening_list();
        longer.insert(k, item(ItemKind::Structure, REFINERY, 75));
        assert_eq!(resolve(&longer, &world, COMMAND_CENTER, &STRICT), before);
    }
    assert_eq!(before.map(|i| i.id), Some(BARRACKS));
}

#[test]
fn alias_resolution_is_total_and_idempotent() {
    for id in 0..2100u32 {
        assert_eq!(canonical(canonical(id)), canonical(id));
    }
    assert_eq!(canonical(ORBITAL_COMMAND), COMMAND_CENTER);
    assert_eq!(canonical(MARINE), MARINE);
}

#[test]
fn leniency_is_in_force_from_the_deadline_on() {
    let config = ResolverConfig { relax_from: 6720, relax: UNITS };
    assert_eq!(config.leniency(6719), Leniency::none());
    assert_eq!(config.leniency(6720), UNITS);
    assert_eq!(Leniency::units_only(), UNITS);
    assert_eq!(
        Leniency::none(),
        Leniency { structures: false, units: false, addons: false, upgrades: false }
    );
}

#[test]
fn scope_of_the_relaxation_is_configured() {
    let list = vec![
        item(ItemKind::Addon, 38, 50),
        item(ItemKind::Structure, BARRACKS, 150),
        item(ItemKind::Structure, REFINERY, 75),
    ];
    let mut world = world_with(vec![count(COMMAND_CENTER, 1, 0), count(BARRACKS, 1, 0)]);
    world.game_loop = 7000;
    let units = ResolverConfig { relax_from: 6720, relax: UNITS };
    assert_eq!(resolve(&list, &world, COMMAND_CENTER, &units).map(|i| i.id), Some(38));
    let addons = ResolverConfig {
        relax_from: 6720,
        relax: Leniency { structures: false, units: false, addons: true, upgrades: false },
    };
    assert_eq!(resolve(&list, &world, COMMAND_CENTER, &addons).map(|i| i.id), Some(REFINERY));
    let all = ResolverConfig {
        relax_from: 6720,
        relax: Leniency { structures: true, units: true, addons: true, upgrades: true },
    };
    assert_eq!(resolve(&list, &world, COMMAND_CENTER, &all), None);
}
