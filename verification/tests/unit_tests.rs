use terran_core::combat::{move_active_army, move_idle_army, scout_and_harass, tick, CombatConfig};
use terran_core::geometry::Point;
use terran_core::ids::{BARRACKS, MARINE, REAPER};
use terran_core::items::{ItemKind, ProductionItem};
use terran_core::ledger::Cost;
use terran_core::resolver::{is_gating, Leniency};
use terran_core::world::{append_orders, Command, Unit, World};

fn p(x: i32, y: i32) -> Point {
    Point { x, y }
}

#[test]
fn plain_unit_is_finished_and_idle() {
    let u = Unit::at(7, MARINE, p(3, 4));
    assert_eq!(u.tag, 7);
    assert_eq!(u.type_id, MARINE);
    assert_eq!(u.pos, p(3, 4));
    assert!(u.ready);
    assert!(u.is_idle());
    assert!(u.is_almost_idle());
    assert!(u.is_almost_unused());
    assert_eq!(u.deficit(), 0);
    assert!(!u.is_oversaturated());
    assert_eq!(u.health, None);
    assert_eq!(u.target, None);
}

#[test]
fn queue_room_depends_on_orders_and_reactor() {
    let busy = Unit { orders: 1, ..Unit::at(1, BARRACKS, p(0, 0)) };
    assert!(!busy.is_idle());
    assert!(!busy.is_almost_idle());
    assert!(!busy.is_almost_unused());
    let finishing = Unit { nearly_done: true, ..busy };
    assert!(finishing.is_almost_idle());
    assert!(finishing.is_almost_unused());
    let reactor = Unit { has_reactor: true, ..busy };
    assert!(!reactor.is_almost_idle());
    assert!(reactor.is_almost_unused());
    let full = Unit { orders: 2, ..reactor };
    assert!(!full.is_almost_unused());
    let draining = Unit { nearly_done: true, ..full };
    assert!(draining.is_almost_unused());
    assert!(!draining.is_almost_idle());
    let stuffed = Unit { orders: 3, ..draining };
    assert!(!stuffed.is_almost_unused());
}

#[test]
fn harvester_counts_give_deficit_and_saturation() {
    let hall = |ideal: Option<u32>, assigned: Option<u32>| Unit {
        ideal_harvesters: ideal,
        assigned_harvesters: assigned,
        ..Unit::at(1, 18, p(0, 0))
    };
    assert_eq!(hall(Some(16), Some(10)).deficit(), 6);
    assert_eq!(hall(Some(16), Some(16)).deficit(), 0);
    assert_eq!(hall(Some(16), Some(20)).deficit(), 0);
    assert_eq!(hall(None, Some(3)).deficit(), 0);
    assert_eq!(hall(Some(3), None).deficit(), 0);
    assert!(hall(Some(16), Some(17)).is_oversaturated());
    assert!(!hall(Some(16), Some(16)).is_oversaturated());
    assert!(!hall(None, Some(16)).is_oversaturated());
}

#[test]
fn empty_world_holds_nothing() {
    let w = World::empty(p(1, 2), p(3, 4));
    assert_eq!(w.start, p(1, 2));
    assert_eq!(w.enemy_start, p(3, 4));
    assert_eq!(w.rally_fallback, p(1, 2));
    assert_eq!(w.choke, None);
    assert!(w.workers.is_empty() && w.army.is_empty() && w.counts.is_empty());
    assert_eq!((w.minerals, w.vespene, w.supply_used, w.supply_cap), (0, 0, 0, 0));
}

#[test]
fn orders_are_appended_in_order() {
    let mut orders = vec![Command::Stop { unit: 1 }];
    append_orders(&mut orders, &vec![Command::Stop { unit: 2 }, Command::Stop { unit: 3 }]);
    append_orders(&mut orders, &Vec::new());
    assert_eq!(
        orders,
        vec![Command::Stop { unit: 1 }, Command::Stop { unit: 2 }, Command::Stop { unit: 3 }]
    );
}

#[test]
fn gating_follows_the_leniency() {
    let item = |kind: ItemKind| ProductionItem {
        kind,
        id: 1,
        cost: Cost { minerals: 0, vespene: 0, supply: 0 },
        producer: None,
        requirement: None,
    };
    let units = Leniency::units_only();
    assert!(!is_gating(&item(ItemKind::Unit), units));
    assert!(is_gating(&item(ItemKind::Structure), units));
    assert!(is_gating(&item(ItemKind::Addon), units));
    assert!(is_gating(&item(ItemKind::Upgrade), units));
    assert!(is_gating(&item(ItemKind::Unit), Leniency::none()));
    assert!(item(ItemKind::Unit).commits_supply());
    assert!(!item(ItemKind::Structure).commits_supply());
    assert!(!item(ItemKind::Upgrade).commits_supply());
}

#[test]
fn controller_tick_is_scouts_then_stance_then_override() {
    let config = CombatConfig {
        primary_unit: MARINE,
        production_structure: BARRACKS,
        attack_ratio: 15,
        supply_ceiling: 190,
        threat_radius: 3000,
        rally_slack: 700,
        rejoin_radius: 5000,
        retreat_below: 60,
        rejoin_above: 95,
    };
    let mut w = World::empty(p(0, 0), p(9000, 9000));
    w.rally_fallback = p(0, 0);
    w.enemies = vec![Unit::at(900, 105, p(4000, 0))];
    w.army = vec![
        Unit { health: Some(45), health_max: Some(45), ..Unit::at(1, MARINE, p(3000, 0)) },
        Unit::at(2, REAPER, p(100, 0)),
    ];
    let mut joined = scout_and_harass(&w);
    joined.extend(move_idle_army(&w, &config));
    joined.extend(move_active_army(&w, &config));
    assert_eq!(tick(&w, &config), joined);
    assert_eq!(
        tick(&w, &config),
        vec![
            Command::Attack { unit: 2, target: 900 },
            Command::MoveTo { unit: 1, at: p(0, 0) },
            Command::Attack { unit: 1, target: 900 },
        ]
    );
}
