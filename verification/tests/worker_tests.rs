use terran_core::geometry::Point;
use terran_core::ids::{COMMAND_CENTER, REFINERY, SCV};
use terran_core::workers::{carries_tag, holds_tag, rebalance, rebalance_sparing, HarvestConfig};
use terran_core::world::{Command, Unit, World};

const CONFIG: HarvestConfig = HarvestConfig { mineral_radius: 800 };

fn p(x: i32, y: i32) -> Point {
    Point { x, y }
}

fn idle_worker(tag: u64, x: i32, y: i32) -> Unit {
    Unit { friendly: true, ..Unit::at(tag, SCV, p(x, y)) }
}

fn miner(tag: u64, x: i32, y: i32, field: u64) -> Unit {
    Unit { orders: 1, collecting: true, target: Some(field), ..idle_worker(tag, x, y) }
}

fn gas(tag: u64, x: i32, y: i32, ideal: u32, assigned: u32) -> Unit {
    Unit {
        ideal_harvesters: Some(ideal),
        assigned_harvesters: Some(assigned),
        structure: true,
        ..Unit::at(tag, REFINERY, p(x, y))
    }
}

fn hall(tag: u64, x: i32, y: i32, ideal: u32, assigned: u32) -> Unit {
    Unit {
        ideal_harvesters: Some(ideal),
        assigned_harvesters: Some(assigned),
        structure: true,
        ..Unit::at(tag, COMMAND_CENTER, p(x, y))
    }
}

fn field(tag: u64, x: i32, y: i32) -> Unit {
    Unit::at(tag, 341, p(x, y))
}

fn world() -> World {
    World::empty(p(0, 0), p(10_000, 10_000))
}

fn gathers(orders: &[Command]) -> Vec<(u64, u64)> {
    orders
        .iter()
        .filter_map(|o| match o {
            Command::Gather { worker, resource } => Some((*worker, *resource)),
            _ => None,
        })
        .collect()
}

#[test]
fn gas_takes_two_workers_when_two_are_available() {
    let mut w = world();
    w.gas_buildings = vec![gas(100, 0, 0, 3, 1)];
    w.workers = vec![idle_worker(1, 500, 0), idle_worker(2, 100, 0)];
    let orders = rebalance(&w, &CONFIG);
    assert_eq!(
        orders,
        vec![
            Command::Gather { worker: 2, resource: 100 },
            Command::Gather { worker: 1, resource: 100 },
        ]
    );
}

#[test]
fn gas_takes_one_worker_when_only_one_is_available() {
    let mut w = world();
    w.gas_buildings = vec![gas(100, 0, 0, 3, 1)];
    w.workers = vec![idle_worker(1, 500, 0)];
    let orders = rebalance(&w, &CONFIG);
    assert_eq!(orders, vec![Command::Gather { worker: 1, resource: 100 }]);
}

#[test]
fn gas_never_takes_more_than_it_lacks() {
    let mut w = world();
    w.gas_buildings = vec![gas(100, 0, 0, 3, 1)];
    w.workers = (1..=5).map(|t| idle_worker(t, 100 * t as i32, 0)).collect();
    let orders = rebalance(&w, &CONFIG);
    assert_eq!(gathers(&orders), vec![(1, 100), (2, 100)]);
}

#[test]
fn no_worker_for_gas_is_skipped_silently() {
    let mut w = world();
    w.gas_buildings = vec![gas(100, 0, 0, 3, 0)];
    assert_eq!(rebalance(&w, &CONFIG), Vec::new());
}

#[test]
fn builders_and_gas_workers_are_not_pulled() {
    let mut w = world();
    w.gas_buildings = vec![gas(100, 0, 0, 3, 2), gas(101, 5000, 0, 3, 3)];
    w.workers = vec![
        Unit { constructing: true, orders: 1, ..idle_worker(1, 10, 0) },
        Unit { target: Some(101), orders: 1, ..idle_worker(2, 20, 0) },
        idle_worker(3, 900, 0),
    ];
    let orders = rebalance(&w, &CONFIG);
    assert_eq!(orders, vec![Command::Gather { worker: 3, resource: 100 }]);
}

#[test]
fn one_worker_is_never_given_to_two_gas_structures() {
    let mut w = world();
    w.gas_buildings = vec![gas(100, 0, 0, 3, 2), gas(101, 200, 0, 3, 2)];
    w.workers = vec![idle_worker(1, 100, 0), idle_worker(2, 3000, 0)];
    let orders = rebalance(&w, &CONFIG);
    assert_eq!(gathers(&orders), vec![(1, 100), (2, 101)]);
}

#[test]
fn no_worker_gathers_twice_in_a_crowded_pass() {
    let mut w = world();
    w.gas_buildings = vec![gas(100, 0, 0, 3, 0), gas(101, 300, 0, 3, 1)];
    w.townhalls = vec![hall(200, 0, 300, 16, 10), hall(201, 4000, 4000, 16, 18)];
    w.mineral_fields = vec![field(300, 0, 600), field(301, 200, 600), field(302, 4000, 4500)];
    w.workers = (1..=12)
        .map(|t| {
            if t % 3 == 0 {
                miner(t, 4000 + t as i32, 4000, 302)
            } else {
                idle_worker(t, 50 * t as i32, 100)
            }
        })
        .collect();
    let orders = rebalance(&w, &CONFIG);
    let mut seen: Vec<u64> = gathers(&orders).iter().map(|g| g.0).collect();
    let total = seen.len();
    seen.sort();
    seen.dedup();
    assert_eq!(seen.len(), total);
    let to_first = gathers(&orders).iter().filter(|g| g.1 == 100).count();
    let to_second = gathers(&orders).iter().filter(|g| g.1 == 101).count();
    assert_eq!(to_first, 3);
    assert_eq!(to_second, 2);
}

#[test]
fn oversaturated_town_hall_releases_its_nearest_miner() {
    let mut w = world();
    w.townhalls = vec![hall(200, 0, 0, 16, 18)];
    w.mineral_fields = vec![field(300, 0, 600)];
    w.workers = vec![miner(1, 900, 0, 300), miner(2, 100, 0, 300), idle_worker(3, 0, 0)];
    let orders = rebalance(&w, &CONFIG);
    assert_eq!(orders, vec![Command::Stop { unit: 2 }]);
}

#[test]
fn oversaturated_gas_releases_one_of_its_own() {
    let mut w = world();
    w.gas_buildings = vec![gas(100, 0, 0, 3, 4)];
    w.workers = vec![
        Unit { target: Some(100), orders: 1, collecting: true, ..idle_worker(1, 400, 0) },
        Unit { target: Some(100), orders: 1, collecting: true, ..idle_worker(2, 200, 0) },
        miner(3, 10, 0, 300),
    ];
    w.mineral_fields = vec![field(300, 0, 600)];
    let orders = rebalance(&w, &CONFIG);
    assert_eq!(orders, vec![Command::Stop { unit: 2 }]);
}

#[test]
fn released_worker_is_handed_to_a_town_hall_that_lacks_one() {
    let mut w = world();
    w.townhalls = vec![hall(200, 0, 0, 16, 17), hall(201, 5000, 0, 16, 15)];
    w.mineral_fields = vec![field(300, 0, 600), field(301, 5000, 600)];
    w.workers = vec![miner(1, 100, 0, 300)];
    let orders = rebalance(&w, &CONFIG);
    assert_eq!(
        orders,
        vec![Command::Stop { unit: 1 }, Command::Gather { worker: 1, resource: 301 }]
    );
}

#[test]
fn idle_workers_go_to_the_field_nearest_to_them() {
    let mut w = world();
    w.townhalls = vec![hall(200, 0, 0, 16, 14)];
    w.mineral_fields = vec![field(300, -500, 0), field(301, 500, 0), field(302, 0, 5000)];
    w.workers = vec![idle_worker(1, 400, 0), idle_worker(2, -300, 0), idle_worker(3, 50, 0)];
    let orders = rebalance(&w, &CONFIG);
    assert_eq!(
        orders,
        vec![
            Command::Gather { worker: 3, resource: 301 },
            Command::Gather { worker: 2, resource: 300 },
        ]
    );
}

#[test]
fn field_outside_the_radius_is_not_used() {
    let mut w = world();
    w.townhalls = vec![hall(200, 0, 0, 16, 14)];
    w.mineral_fields = vec![field(300, 800, 0)];
    w.workers = vec![idle_worker(1, 400, 0)];
    assert_eq!(rebalance(&w, &CONFIG), Vec::new());
    w.mineral_fields = vec![field(300, 799, 0)];
    assert_eq!(rebalance(&w, &CONFIG), vec![Command::Gather { worker: 1, resource: 300 }]);
}

#[test]
fn equally_near_workers_are_taken_in_list_order() {
    let mut w = world();
    w.gas_buildings = vec![gas(100, 0, 0, 3, 2)];
    w.workers = vec![idle_worker(7, 300, 0), idle_worker(8, -300, 0), idle_worker(9, 0, 300)];
    let orders = rebalance(&w, &CONFIG);
    assert_eq!(orders, vec![Command::Gather { worker: 7, resource: 100 }]);
}

#[test]
fn structure_without_harvester_counts_lacks_nothing() {
    let mut w = world();
    w.townhalls = vec![Unit::at(200, COMMAND_CENTER, p(0, 0))];
    w.mineral_fields = vec![field(300, 0, 600)];
    w.workers = vec![idle_worker(1, 400, 0)];
    assert_eq!(rebalance(&w, &CONFIG), Vec::new());
}

#[test]
fn tags_are_found_among_units() {
    let units = vec![field(300, 0, 0), field(301, 1, 1)];
    assert!(carries_tag(&units, 301));
    assert!(!carries_tag(&units, 302));
    assert!(!carries_tag(&Vec::new(), 300));
}

#[test]
fn spared_workers_get_no_order() {
    let mut w = world();
    w.gas_buildings = vec![gas(100, 0, 0, 3, 1)];
    w.townhalls = vec![hall(200, 0, 0, 16, 10)];
    w.mineral_fields = vec![field(300, 0, 600)];
    w.workers = vec![idle_worker(1, 100, 0), miner(2, 200, 0, 300), idle_worker(3, 300, 0)];
    assert_eq!(
        rebalance_sparing(&w, &CONFIG, &vec![1, 2]),
        vec![Command::Gather { worker: 3, resource: 100 }]
    );
    assert_eq!(
        rebalance_sparing(&w, &CONFIG, &vec![3]),
        vec![
            Command::Gather { worker: 1, resource: 100 },
            Command::Gather { worker: 2, resource: 100 },
        ]
    );
    assert_eq!(rebalance_sparing(&w, &CONFIG, &vec![1, 2, 3, 99]), Vec::new());
    assert_eq!(rebalance_sparing(&w, &CONFIG, &Vec::new()), rebalance(&w, &CONFIG));
}

#[test]
fn tags_are_found_in_a_list() {
    assert!(holds_tag(&vec![4, 5, 6], 6));
    assert!(!holds_tag(&vec![4, 5, 6], 7));
    assert!(!holds_tag(&Vec::new(), 7));
}
