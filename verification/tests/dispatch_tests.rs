use terran_core::dispatch::{
    build_addon, build_expansion, build_gas_building, build_structure, count_completed, dispatch,
    get_closest_free_worker, get_current_research_prio, placement_request, research,
    research_next_in_upgrade_order, route, train_unit, upgrade_townhall, DispatchConfig,
    DispatchError, PlacementRequest, Route,
};
use terran_core::geometry::Point;
use terran_core::ids::{
    addon_base, upgrade_requirement, RaceIds, ARMORY, BARRACKS, BARRACKS_FLYING, BARRACKS_REACTOR,
    BARRACKS_TECH_LAB, COMMAND_CENTER, ENGINEERING_BAY, FACTORY, FACTORY_TECH_LAB,
    INFANTRY_ARMOR_3, INFANTRY_WEAPONS_1, INFANTRY_WEAPONS_2, MARINE, ORBITAL_COMMAND, REFINERY,
    SCV, STARPORT, STARPORT_REACTOR, STIMPACK, SUPPLY_DEPOT,
};
use terran_core::items::{classify, ItemKind, ProductionItem};
use terran_core::ledger::{Cost, Ledger};
use terran_core::world::{Command, Expansion, TypeCount, Unit, World};

const CONFIG: DispatchConfig = DispatchConfig { gas_radius: 1100 };

fn p(x: i32, y: i32) -> Point {
    Point { x, y }
}

fn ids() -> RaceIds {
    RaceIds::terran()
}

fn item(kind: ItemKind, id: u32, minerals: u32, vespene: u32, supply: u32) -> ProductionItem {
    ProductionItem {
        kind,
        id,
        cost: Cost { minerals, vespene, supply },
        producer: None,
        requirement: None,
    }
}

fn rich() -> Ledger {
    Ledger::new(1000, 1000, 10, 50)
}

fn miner(tag: u64, x: i32, y: i32) -> Unit {
    Unit { orders: 1, collecting: true, target: Some(300), ..Unit::at(tag, SCV, p(x, y)) }
}

fn structure(tag: u64, type_id: u32, x: i32, y: i32) -> Unit {
    Unit { structure: true, ..Unit::at(tag, type_id, p(x, y)) }
}

fn world() -> World {
    let mut w = World::empty(p(0, 0), p(10_000, 10_000));
    w.workers = vec![miner(1, 3000, 0), miner(2, 100, 0)];
    w
}

#[test]
fn routes_by_kind_and_id() {
    let ids = ids();
    assert_eq!(route(&item(ItemKind::Structure, COMMAND_CENTER, 400, 0, 0), &ids), Route::Expansion);
    assert_eq!(
        route(&item(ItemKind::Structure, ORBITAL_COMMAND, 150, 0, 0), &ids),
        Route::TownhallUpgrade
    );
    assert_eq!(route(&item(ItemKind::Structure, REFINERY, 75, 0, 0), &ids), Route::Gas);
    assert_eq!(route(&item(ItemKind::Unit, MARINE, 50, 0, 1), &ids), Route::Train);
    assert_eq!(route(&item(ItemKind::Addon, BARRACKS_REACTOR, 50, 50, 0), &ids), Route::Addon);
    assert_eq!(route(&item(ItemKind::Structure, BARRACKS, 150, 0, 0), &ids), Route::Structure);
    assert_eq!(route(&item(ItemKind::Upgrade, STIMPACK, 100, 100, 0), &ids), Route::Research);
    assert_eq!(route(&item(ItemKind::Upgrade, COMMAND_CENTER, 100, 100, 0), &ids), Route::Research);
}

#[test]
fn kinds_are_classified_units_first() {
    assert_eq!(classify(true, false, false), Some(ItemKind::Unit));
    assert_eq!(classify(true, true, true), Some(ItemKind::Unit));
    assert_eq!(classify(false, true, true), Some(ItemKind::Addon));
    assert_eq!(classify(false, false, true), Some(ItemKind::Structure));
    assert_eq!(classify(false, false, false), None);
}

#[test]
fn placement_search_depends_on_the_structure() {
    assert_eq!(
        placement_request(SUPPLY_DEPOT, &ids()),
        PlacementRequest {
            structure: SUPPLY_DEPOT,
            towards_center: 2,
            step: 3,
            addon_room: false,
            max_distance: 30
        }
    );
    assert_eq!(
        placement_request(FACTORY, &ids()),
        PlacementRequest {
            structure: FACTORY,
            towards_center: 10,
            step: 4,
            addon_room: true,
            max_distance: 30
        }
    );
    assert!(!placement_request(ENGINEERING_BAY, &ids()).addon_room);
}

#[test]
fn unaffordable_item_is_refused_before_anything_else() {
    let w = world();
    let mut ledger = Ledger::new(99, 0, 0, 15);
    let depot = item(ItemKind::Structure, SUPPLY_DEPOT, 100, 0, 0);
    assert_eq!(
        dispatch(&depot, Some(p(0, 0)), &w, &ids(), &CONFIG, &mut ledger),
        Err(DispatchError::CannotAfford { item: SUPPLY_DEPOT })
    );
    assert_eq!(ledger, Ledger::new(99, 0, 0, 15));
}

#[test]
fn unit_needs_supply_to_be_affordable() {
    let mut w = world();
    w.structures = vec![structure(50, BARRACKS, 0, 0)];
    let marine = ProductionItem { producer: Some(BARRACKS), ..item(ItemKind::Unit, MARINE, 50, 0, 1) };
    let mut full = Ledger::new(500, 0, 15, 15);
    assert_eq!(
        dispatch(&marine, None, &w, &ids(), &CONFIG, &mut full),
        Err(DispatchError::CannotAfford { item: MARINE })
    );
    let mut roomy = Ledger::new(500, 0, 14, 15);
    assert_eq!(
        dispatch(&marine, None, &w, &ids(), &CONFIG, &mut roomy),
        Ok(Command::Train { producer: 50, item: MARINE })
    );
    assert_eq!(roomy, Ledger::new(450, 0, 15, 15));
}

#[test]
fn unfinished_requirement_is_refused() {
    let mut w = world();
    let barracks = ProductionItem {
        requirement: Some(SUPPLY_DEPOT),
        ..item(ItemKind::Structure, BARRACKS, 150, 0, 0)
    };
    w.counts = vec![TypeCount { type_id: SUPPLY_DEPOT, complete: 0, ordered: 1 }];
    let mut ledger = rich();
    assert_eq!(
        dispatch(&barracks, Some(p(500, 0)), &w, &ids(), &CONFIG, &mut ledger),
        Err(DispatchError::UnfulfilledTechRequirement { item: BARRACKS, requirement: SUPPLY_DEPOT })
    );
    assert_eq!(ledger, rich());
    w.counts = vec![TypeCount { type_id: SUPPLY_DEPOT, complete: 1, ordered: 0 }];
    assert_eq!(
        dispatch(&barracks, Some(p(500, 0)), &w, &ids(), &CONFIG, &mut ledger),
        Ok(Command::Build { worker: 2, structure: BARRACKS, at: p(500, 0) })
    );
    assert_eq!(ledger, Ledger::new(850, 1000, 10, 50));
}

#[test]
fn requirement_is_met_by_any_form_of_the_structure() {
    let mut w = world();
    w.counts = vec![TypeCount { type_id: BARRACKS_FLYING, complete: 1, ordered: 0 }];
    assert_eq!(count_completed(&w, BARRACKS), 1);
    assert_eq!(count_completed(&w, FACTORY), 0);
}

#[test]
fn structure_without_placement_has_no_location() {
    let w = world();
    let mut ledger = rich();
    let depot = item(ItemKind::Structure, SUPPLY_DEPOT, 100, 0, 0);
    assert_eq!(
        dispatch(&depot, None, &w, &ids(), &CONFIG, &mut ledger),
        Err(DispatchError::NoSuitableLocation { item: SUPPLY_DEPOT, near: p(0, 0) })
    );
    assert_eq!(ledger, rich());
}

#[test]
fn structure_without_free_worker_is_not_built() {
    let mut w = world();
    w.workers = vec![
        Unit { carrying: true, ..miner(1, 0, 0) },
        Unit { constructing: true, ..miner(2, 0, 0) },
        Unit::at(3, SCV, p(0, 0)),
    ];
    assert_eq!(get_closest_free_worker(&w, p(0, 0)), None);
    assert_eq!(
        build_structure(&w, SUPPLY_DEPOT, Some(p(0, 0))),
        Err(DispatchError::NoSuitableWorker)
    );
}

#[test]
fn nearest_free_worker_builds() {
    let w = world();
    assert_eq!(get_closest_free_worker(&w, p(2900, 0)), Some(0));
    assert_eq!(get_closest_free_worker(&w, p(0, 0)), Some(1));
    assert_eq!(
        build_structure(&w, SUPPLY_DEPOT, Some(p(2900, 10))),
        Ok(Command::Build { worker: 1, structure: SUPPLY_DEPOT, at: p(2900, 10) })
    );
}

#[test]
fn expansion_goes_to_the_first_free_site() {
    let mut w = world();
    assert_eq!(
        build_expansion(&w, &ids()),
        Err(DispatchError::NoSuitableLocation { item: COMMAND_CENTER, near: p(0, 0) })
    );
    w.expansions = vec![
        Expansion { site: p(0, 0), free: false },
        Expansion { site: p(3100, 0), free: true },
        Expansion { site: p(200, 0), free: true },
    ];
    assert_eq!(
        build_expansion(&w, &ids()),
        Ok(Command::Build { worker: 1, structure: COMMAND_CENTER, at: p(3100, 0) })
    );
    w.workers = Vec::new();
    assert_eq!(build_expansion(&w, &ids()), Err(DispatchError::NoSuitableWorker));
}

#[test]
fn town_hall_upgrade_takes_the_nearest_idle_base_hall() {
    let mut w = world();
    let orbital = item(ItemKind::Structure, ORBITAL_COMMAND, 150, 0, 0);
    w.townhalls = vec![
        Unit { orders: 1, ..structure(10, COMMAND_CENTER, 0, 0) },
        structure(11, ORBITAL_COMMAND, 10, 0),
    ];
    assert_eq!(
        upgrade_townhall(&w, &ids(), &orbital),
        Err(DispatchError::NoProducer { item: ORBITAL_COMMAND })
    );
    w.townhalls.push(structure(12, COMMAND_CENTER, 4000, 0));
    w.townhalls.push(structure(13, COMMAND_CENTER, 3000, 0));
    assert_eq!(
        upgrade_townhall(&w, &ids(), &orbital),
        Ok(Command::Morph { unit: 13, into: ORBITAL_COMMAND })
    );
}

#[test]
fn gas_goes_on_the_first_free_geyser_of_the_first_town_hall_that_has_one() {
    let mut w = world();
    let geyser = |tag: u64, x: i32, free: bool| Unit { free, ..Unit::at(tag, 342, p(x, 0)) };
    w.townhalls = vec![structure(10, COMMAND_CENTER, 0, 0), structure(11, COMMAND_CENTER, 5000, 0)];
    w.geysers = vec![geyser(400, 700, false), geyser(401, 5600, true), geyser(402, 1100, true)];
    assert_eq!(
        build_gas_building(&w, &ids(), &CONFIG),
        Ok(Command::BuildGas { worker: 1, geyser: 401 })
    );
    w.geysers.push(geyser(403, -1099, true));
    assert_eq!(
        build_gas_building(&w, &ids(), &CONFIG),
        Ok(Command::BuildGas { worker: 2, geyser: 403 })
    );
    w.workers = Vec::new();
    assert_eq!(build_gas_building(&w, &ids(), &CONFIG), Err(DispatchError::NoSuitableWorker));
    w.geysers = vec![geyser(400, 700, false)];
    assert_eq!(
        build_gas_building(&w, &ids(), &CONFIG),
        Err(DispatchError::NoSuitableLocation { item: REFINERY, near: p(0, 0) })
    );
}

#[test]
fn unit_is_trained_where_there_is_room() {
    let mut w = world();
    let marine = ProductionItem { producer: Some(BARRACKS), ..item(ItemKind::Unit, MARINE, 50, 0, 1) };
    assert_eq!(train_unit(&w, &marine), Err(DispatchError::NoProducer { item: MARINE }));
    w.structures = vec![
        Unit { orders: 1, ..structure(50, BARRACKS, 0, 0) },
        Unit { ready: false, ..structure(51, BARRACKS, 10, 0) },
        structure(52, FACTORY, 20, 0),
        Unit { orders: 1, has_reactor: true, ..structure(53, BARRACKS, 900, 0) },
        Unit { orders: 1, nearly_done: true, ..structure(54, BARRACKS, 800, 0) },
    ];
    assert_eq!(train_unit(&w, &marine), Ok(Command::Train { producer: 54, item: MARINE }));
    let unknown = item(ItemKind::Unit, MARINE, 50, 0, 1);
    assert_eq!(train_unit(&w, &unknown), Err(DispatchError::NoProducer { item: MARINE }));
}

#[test]
fn addon_is_built_by_an_idle_carrier_without_addon() {
    let mut w = world();
    let reactor = item(ItemKind::Addon, BARRACKS_REACTOR, 50, 50, 0);
    w.structures = vec![
        Unit { has_addon: true, ..structure(50, BARRACKS, 0, 0) },
        Unit { orders: 1, ..structure(51, BARRACKS, 10, 0) },
        structure(52, FACTORY, 20, 0),
    ];
    assert_eq!(build_addon(&w, &reactor), Err(DispatchError::NoProducer { item: BARRACKS_REACTOR }));
    w.structures.push(structure(53, BARRACKS, 700, 0));
    assert_eq!(build_addon(&w, &reactor), Ok(Command::Train { producer: 53, item: BARRACKS_REACTOR }));
    assert_eq!(
        build_addon(&w, &item(ItemKind::Addon, MARINE, 50, 50, 0)),
        Err(DispatchError::InvalidArgument { item: MARINE })
    );
    assert_eq!(addon_base(BARRACKS_TECH_LAB), Some(BARRACKS));
    assert_eq!(addon_base(FACTORY_TECH_LAB), Some(FACTORY));
    assert_eq!(addon_base(STARPORT_REACTOR), Some(STARPORT));
    assert_eq!(addon_base(5), None);
}

#[test]
fn upgrade_is_researched_by_an_idle_researcher() {
    let mut w = world();
    let stim = ProductionItem {
        producer: Some(BARRACKS_TECH_LAB),
        ..item(ItemKind::Upgrade, STIMPACK, 100, 100, 0)
    };
    assert_eq!(research(&w, &stim), Err(DispatchError::NoResearcher { upgrade: STIMPACK }));
    w.structures = vec![
        Unit { orders: 1, ..structure(60, BARRACKS_TECH_LAB, 0, 0) },
        structure(61, BARRACKS_TECH_LAB, 500, 0),
    ];
    assert_eq!(research(&w, &stim), Ok(Command::Research { producer: 61, upgrade: STIMPACK }));
    let orphan = item(ItemKind::Upgrade, STIMPACK, 100, 100, 0);
    assert_eq!(research(&w, &orphan), Err(DispatchError::NoResearcher { upgrade: STIMPACK }));
}

#[test]
fn cursor_moves_only_when_research_starts() {
    let mut w = world();
    let upgrades = vec![
        ProductionItem {
            producer: Some(ENGINEERING_BAY),
            ..item(ItemKind::Upgrade, INFANTRY_WEAPONS_1, 100, 100, 0)
        },
        ProductionItem {
            producer: Some(ENGINEERING_BAY),
            requirement: upgrade_requirement(INFANTRY_WEAPONS_2),
            ..item(ItemKind::Upgrade, INFANTRY_WEAPONS_2, 175, 175, 0)
        },
    ];
    let mut cursor = 0;
    let mut ledger = rich();
    assert_eq!(
        research_next_in_upgrade_order(&upgrades, &mut cursor, &w, &ids(), &CONFIG, &mut ledger),
        Err(DispatchError::NoResearcher { upgrade: INFANTRY_WEAPONS_1 })
    );
    assert_eq!(cursor, 0);
    w.structures = vec![structure(70, ENGINEERING_BAY, 0, 0)];
    assert_eq!(
        research_next_in_upgrade_order(&upgrades, &mut cursor, &w, &ids(), &CONFIG, &mut ledger),
        Ok(Command::Research { producer: 70, upgrade: INFANTRY_WEAPONS_1 })
    );
    assert_eq!(cursor, 1);
    assert_eq!(ledger, Ledger::new(900, 900, 10, 50));
    assert_eq!(
        research_next_in_upgrade_order(&upgrades, &mut cursor, &w, &ids(), &CONFIG, &mut ledger),
        Err(DispatchError::UnfulfilledTechRequirement {
            item: INFANTRY_WEAPONS_2,
            requirement: ARMORY
        })
    );
    assert_eq!(cursor, 1);
    w.counts = vec![TypeCount { type_id: ARMORY, complete: 1, ordered: 0 }];
    assert_eq!(
        research_next_in_upgrade_order(&upgrades, &mut cursor, &w, &ids(), &CONFIG, &mut ledger),
        Ok(Command::Research { producer: 70, upgrade: INFANTRY_WEAPONS_2 })
    );
    assert_eq!(cursor, 2);
    assert_eq!(
        research_next_in_upgrade_order(&upgrades, &mut cursor, &w, &ids(), &CONFIG, &mut ledger),
        Err(DispatchError::EndOfList)
    );
    assert_eq!(cursor, 2);
    assert_eq!(ledger, Ledger::new(725, 725, 10, 50));
    assert_eq!(get_current_research_prio(&upgrades, 1).map(|u| u.id), Some(INFANTRY_WEAPONS_2));
    assert_eq!(get_current_research_prio(&upgrades, 2), None);
}

#[test]
fn only_higher_infantry_upgrades_need_an_armory() {
    assert_eq!(upgrade_requirement(INFANTRY_WEAPONS_1), None);
    assert_eq!(upgrade_requirement(STIMPACK), None);
    assert_eq!(upgrade_requirement(INFANTRY_WEAPONS_2), Some(ARMORY));
    assert_eq!(upgrade_requirement(INFANTRY_ARMOR_3), Some(ARMORY));
}
