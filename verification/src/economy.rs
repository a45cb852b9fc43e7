//! Keeping the economy going: enough supply, enough workers, and the
//! abilities of structures that serve it.

use crate::dispatch::{build_structure, structure_built};
use crate::geometry::Point;
use crate::ids::{canonical, group_of, RaceIds};
use crate::items::ProductionItem;
use crate::ledger::Ledger;
use crate::resolver::{count_group, owned};
use crate::select::{find_nearest, nearest};
use crate::world::{gathered, Command, TypeCount, Unit, World};
use vstd::prelude::*;

verus! {

/// Tunables of the economy.
#[derive(Clone, Copy, Debug, PartialEq, Eq)]
pub struct EconomyConfig {
    /// Never want more workers than this.
    pub worker_cap: u32,
    pub workers_per_townhall: u32,
    pub workers_per_gas: u32,
    /// Supply is looked after once the game loop has passed this.
    pub supply_from: u32,
    /// Build a supply provider when less supply than this is left and none is ordered.
    pub supply_margin: u32,
    /// Build a second one when less supply than this is left and one is ordered.
    pub supply_margin_urgent: u32,
    /// The structure whose completion the town hall's upgrade waits for.
    pub upgrade_gate: u32,
    /// Workers are held back when that structure has less time than this left to build.
    pub upgrade_wait: u32,
}

/// How many units of exactly the type `type_id` the first `n` entries report as ordered.
pub open spec fn ordered_among(counts: Seq<TypeCount>, type_id: u32, n: int) -> int
    decreases n,
{
    if n <= 0 {
        0
    } else {
        ordered_among(counts, type_id, n - 1) + if counts[n - 1].type_id == type_id {
            counts[n - 1].ordered as int
        } else {
            0
        }
    }
}

/// How many units of exactly the type `type_id` are ordered or under construction.
pub open spec fn ordered(world: World, type_id: u32) -> int {
    ordered_among(world.counts@, type_id, world.counts@.len() as int)
}

/// The smaller of two numbers.
pub open spec fn smaller(a: int, b: int) -> int {
    if a <= b {
        a
    } else {
        b
    }
}

/// The number of workers to aim for: so many per town hall and per gas
/// structure, those under construction included, up to the cap.
pub open spec fn ideal_worker_count(world: World, ids: RaceIds, config: EconomyConfig) -> int {
    smaller(
        config.worker_cap as int,
        owned(world, group_of(ids.townhall)) * config.workers_per_townhall + owned(
            world,
            group_of(ids.gas),
        ) * config.workers_per_gas,
    )
}

/// Supply is short: the time for it has come, little is left and too little is
/// on its way, and the ledger covers a supply provider.
pub open spec fn needs_supply(
    world: World,
    ledger: Ledger,
    supply: ProductionItem,
    config: EconomyConfig,
) -> bool {
    &&& world.game_loop > config.supply_from
    &&& (ledger.supply_left() < config.supply_margin && ordered(world, supply.id) == 0) || (
    ledger.supply_left() < config.supply_margin_urgent && ordered(world, supply.id) == 1)
    &&& ledger.affords(supply.cost, false)
}

/// The order that keeps supply up, if one is due and can be issued.
pub open spec fn supply_order(
    world: World,
    ledger: Ledger,
    supply: ProductionItem,
    placement: Option<Point>,
    config: EconomyConfig,
) -> Option<Command> {
    if needs_supply(world, ledger, supply, config) {
        match structure_built(world, supply.id, placement) {
            Ok(order) => Some(order),
            Err(_) => None,
        }
    } else {
        None
    }
}

/// The mobile units on the map.
pub open spec fn mobiles(world: World) -> Seq<bool> {
    Seq::new(world.everyone@.len(), |i: int| !world.everyone@[i].structure)
}

/// The town halls that lack harvesters.
pub open spec fn understaffed(world: World) -> Seq<bool> {
    Seq::new(world.townhalls@.len(), |i: int| world.townhalls@[i].harvester_deficit() > 0)
}

/// Every mineral field.
pub open spec fn all_fields(world: World) -> Seq<bool> {
    Seq::new(world.mineral_fields@.len(), |i: int| true)
}

/// A raised supply depot lowers itself when the mobile unit nearest to it is
/// friendly and stays raised when it is not.
pub open spec fn depot_order(world: World, ids: RaceIds, depot: Unit) -> Option<Command> {
    if depot.type_id != ids.supply {
        None
    } else {
        match nearest(world.everyone@, mobiles(world), depot.pos) {
            Some(k) => if world.everyone@[k].friendly {
                Some(Command::LowerDepot { depot: depot.tag })
            } else {
                Some(Command::RaiseDepot { depot: depot.tag })
            },
            None => None,
        }
    }
}

/// An upgraded town hall that can call a supply drop calls it onto the mineral
/// field nearest to the understaffed town hall nearest to it.
pub open spec fn mule_order(world: World, ids: RaceIds, hall: Unit) -> Option<Command> {
    if hall.type_id != ids.townhall_upgrade || !hall.can_call_mule {
        None
    } else {
        match nearest(world.townhalls@, understaffed(world), hall.pos) {
            Some(t) => match nearest(
                world.mineral_fields@,
                all_fields(world),
                world.townhalls@[t].pos,
            ) {
                Some(m) => Some(
                    Command::CallMule { orbital: hall.tag, mineral: world.mineral_fields@[m].tag },
                ),
                None => None,
            },
            None => None,
        }
    }
}

/// [`depot_order`] as a rule for every unit of a list.
pub open spec fn depot_rule(world: World, ids: RaceIds) -> spec_fn(Unit) -> Option<Command> {
    |u: Unit| depot_order(world, ids, u)
}

/// [`mule_order`] as a rule for every unit of a list.
pub open spec fn mule_rule(world: World, ids: RaceIds) -> spec_fn(Unit) -> Option<Command> {
    |u: Unit| mule_order(world, ids, u)
}

/// The orders for supply depots, then those for supply drops.
pub open spec fn ability_orders(world: World, ids: RaceIds) -> Seq<Command> {
    gathered(world.structures@, world.structures@.len() as int, depot_rule(world, ids))
        + gathered(world.townhalls@, world.townhalls@.len() as int, mule_rule(world, ids))
}

/// Where the training of workers stands: what the ledger still holds, the
/// orders so far, how many more workers are wanted, and whether the ledger
/// has run dry.
#[verifier::ext_equal]
pub struct Drill {
    pub ledger: Ledger,
    pub orders: Seq<Command>,
    pub wanted: nat,
    pub dry: bool,
}

/// Structures of the type that gates the town hall's upgrade.
pub open spec fn gates_of_upgrade(world: World, config: EconomyConfig) -> Seq<bool> {
    Seq::new(
        world.structures@.len(),
        |i: int| world.structures@[i].type_id == config.upgrade_gate,
    )
}

/// Workers are held back while the town hall's upgrade is next in line and
/// the structure it waits for is about to be finished.
pub open spec fn held_back(
    world: World,
    next: Option<ProductionItem>,
    ids: RaceIds,
    config: EconomyConfig,
) -> bool {
    &&& next matches Some(item)
    &&& item.id == ids.townhall_upgrade
    &&& nearest(world.structures@, gates_of_upgrade(world, config), world.start) matches Some(b)
    &&& !world.structures@[b].ready
    &&& world.structures@[b].build_left < config.upgrade_wait
}

/// How many workers are missing.
pub open spec fn workers_wanted(world: World, ids: RaceIds, config: EconomyConfig) -> nat {
    if ideal_worker_count(world, ids, config) > world.supply_workers {
        (ideal_worker_count(world, ids, config) - world.supply_workers) as nat
    } else {
        0
    }
}

/// One town hall's turn: a finished town hall that is idle or about to be
/// trains a worker if one is still wanted and the ledger covers it. The first
/// town hall that the ledger does not cover ends the training.
pub open spec fn drill_one(t: Unit, worker: ProductionItem, s: Drill) -> Drill {
    if s.dry || s.wanted == 0 || !(t.almost_idle() && t.ready) {
        s
    } else if !s.ledger.affords(worker.cost, true) {
        Drill { dry: true, ..s }
    } else {
        Drill {
            ledger: s.ledger.debited(worker.cost, true),
            orders: s.orders.push(Command::Train { producer: t.tag, item: worker.id }),
            wanted: (s.wanted - 1) as nat,
            dry: false,
        }
    }
}

/// The turns of the first `upto` town halls.
pub open spec fn drill(world: World, worker: ProductionItem, s: Drill, upto: int) -> Drill
    decreases upto,
{
    if upto <= 0 {
        s
    } else {
        drill_one(world.townhalls@[upto - 1], worker, drill(world, worker, s, upto - 1))
    }
}

/// The training of workers in one tick.
pub open spec fn worker_training(
    world: World,
    next: Option<ProductionItem>,
    worker: ProductionItem,
    ids: RaceIds,
    config: EconomyConfig,
    ledger: Ledger,
) -> Drill {
    let start = Drill {
        ledger,
        orders: Seq::empty(),
        wanted: workers_wanted(world, ids, config),
        dry: false,
    };
    if !ledger.affords(worker.cost, true) || held_back(world, next, ids, config) {
        start
    } else {
        drill(world, worker, start, world.townhalls@.len() as int)
    }
}

/// Counts the ordered units of exactly the type `type_id`.
pub fn count_ordered(world: &World, type_id: u32) -> (n: u128)
    ensures
        n == ordered(*world, type_id),
{
    let mut n: u128 = 0;
    let mut i: usize = 0;
    while i < world.counts.len()
        invariant
            0 <= i <= world.counts@.len(),
            n == ordered_among(world.counts@, type_id, i as int),
            n <= i * 0xFFFF_FFFF,
        decreases world.counts@.len() - i,
    {
        if world.counts[i].type_id == type_id {
            n = n + world.counts[i].ordered as u128;
        }
        i = i + 1;
    }
    n
}

/// `count * each`, or the cap where that is at least the cap.
fn capped_share(count: u128, each: u32, cap: u32) -> (share: u64)
    ensures
        share == smaller(cap as int, count * each),
{
    let cap_wide: u128 = cap as u128;
    if each == 0 {
        assert(count * each == 0) by (nonlinear_arith)
            requires
                each == 0,
        ;
        0
    } else if count >= cap_wide {
        assert(count * each >= cap) by (nonlinear_arith)
            requires
                count >= cap,
                each >= 1,
        ;
        cap as u64
    } else {
        assert(count * each <= 0xFFFF_FFFF * 0xFFFF_FFFF) by (nonlinear_arith)
            requires
                0 <= count <= 0xFFFF_FFFF,
                0 <= each <= 0xFFFF_FFFF,
        ;
        let product: u128 = count * (each as u128);
        if product >= cap_wide {
            cap as u64
        } else {
            product as u64
        }
    }
}

/// The number of workers to aim for.
pub fn ideal_workers(world: &World, ids: &RaceIds, config: &EconomyConfig) -> (ideal: u32)
    ensures
        ideal == ideal_worker_count(*world, *ids, *config),
{
    let halls = count_group(world, canonical(ids.townhall));
    let gases = count_group(world, canonical(ids.gas));
    let from_halls = capped_share(halls, config.workers_per_townhall, config.worker_cap);
    let from_gases = capped_share(gases, config.workers_per_gas, config.worker_cap);
    proof {
        assert(halls * config.workers_per_townhall >= 0) by (nonlinear_arith)
            requires
                halls >= 0,
                config.workers_per_townhall >= 0,
        ;
        assert(gases * config.workers_per_gas >= 0) by (nonlinear_arith)
            requires
                gases >= 0,
                config.workers_per_gas >= 0,
        ;
    }
    let sum: u64 = from_halls + from_gases;
    if sum >= config.worker_cap as u64 {
        config.worker_cap
    } else {
        sum as u32
    }
}

/// Tells whether a supply provider is due.
pub fn wants_supply(
    world: &World,
    ledger: &Ledger,
    supply: &ProductionItem,
    config: &EconomyConfig,
) -> (due: bool)
    ensures
        due == needs_supply(*world, *ledger, *supply, *config),
{
    if world.game_loop <= config.supply_from {
        return false;
    }
    let left = ledger.remaining_supply();
    let coming = count_ordered(world, supply.id);
    ((left < config.supply_margin && coming == 0) || (left < config.supply_margin_urgent && coming
        == 1)) && ledger.can_afford(supply.cost, false)
}

/// Builds a supply provider at `placement` if one is due, and debits the
/// ledger when the order is issued.
pub fn process_supply(
    world: &World,
    ledger: &mut Ledger,
    supply: &ProductionItem,
    placement: Option<Point>,
    config: &EconomyConfig,
) -> (order: Option<Command>)
    ensures
        order == supply_order(*world, *old(ledger), *supply, placement, *config),
        order is Some ==> *final(ledger) == old(ledger).debited(supply.cost, false),
        order is None ==> *final(ledger) == *old(ledger),
{
    if !wants_supply(world, ledger, supply, config) {
        return None;
    }
    match build_structure(world, supply.id, placement) {
        Ok(order) => {
            let reserved = ledger.reserve(supply.cost, false);
            assert(reserved is Ok);
            Some(order)
        },
        Err(_) => None,
    }
}

fn mobile_mask(world: &World) -> (mask: Vec<bool>)
    ensures
        mask@ == mobiles(*world),
{
    let mut mask: Vec<bool> = Vec::new();
    let mut i: usize = 0;
    while i < world.everyone.len()
        invariant
            0 <= i <= world.everyone@.len(),
            mask@.len() == i,
            forall|j: int| 0 <= j < i ==> mask@[j] == mobiles(*world)[j],
        decreases world.everyone@.len() - i,
    {
        mask.push(!world.everyone[i].structure);
        i = i + 1;
    }
    assert(mask@ =~= mobiles(*world));
    mask
}

fn understaffed_mask(world: &World) -> (mask: Vec<bool>)
    ensures
        mask@ == understaffed(*world),
{
    let mut mask: Vec<bool> = Vec::new();
    let mut i: usize = 0;
    while i < world.townhalls.len()
        invariant
            0 <= i <= world.townhalls@.len(),
            mask@.len() == i,
            forall|j: int| 0 <= j < i ==> mask@[j] == understaffed(*world)[j],
        decreases world.townhalls@.len() - i,
    {
        mask.push(world.townhalls[i].deficit() > 0);
        i = i + 1;
    }
    assert(mask@ =~= understaffed(*world));
    mask
}

fn every_field_mask(world: &World) -> (mask: Vec<bool>)
    ensures
        mask@ == all_fields(*world),
{
    let mut mask: Vec<bool> = Vec::new();
    let mut i: usize = 0;
    while i < world.mineral_fields.len()
        invariant
            0 <= i <= world.mineral_fields@.len(),
            mask@.len() == i,
            forall|j: int| 0 <= j < i ==> mask@[j],
        decreases world.mineral_fields@.len() - i,
    {
        mask.push(true);
        i = i + 1;
    }
    assert(mask@ =~= all_fields(*world));
    mask
}

fn gate_mask(world: &World, config: &EconomyConfig) -> (mask: Vec<bool>)
    ensures
        mask@ == gates_of_upgrade(*world, *config),
{
    let mut mask: Vec<bool> = Vec::new();
    let mut i: usize = 0;
    while i < world.structures.len()
        invariant
            0 <= i <= world.structures@.len(),
            mask@.len() == i,
            forall|j: int| 0 <= j < i ==> mask@[j] == gates_of_upgrade(*world, *config)[j],
        decreases world.structures@.len() - i,
    {
        mask.push(world.structures[i].type_id == config.upgrade_gate);
        i = i + 1;
    }
    assert(mask@ =~= gates_of_upgrade(*world, *config));
    mask
}

/// Lowers or raises supply depots and calls supply drops.
pub fn process_structure_abilities(world: &World, ids: &RaceIds) -> (orders: Vec<Command>)
    ensures
        orders@ == ability_orders(*world, *ids),
{
    let movers = mobile_mask(world);
    let mut orders: Vec<Command> = Vec::new();
    let mut i: usize = 0;
    while i < world.structures.len()
        invariant
            0 <= i <= world.structures@.len(),
            movers@ == mobiles(*world),
            orders@ == gathered(world.structures@, i as int, depot_rule(*world, *ids)),
        decreases world.structures@.len() - i,
    {
        let depot = &world.structures[i];
        if depot.type_id == ids.supply {
            match find_nearest(&world.everyone, &movers, depot.pos) {
                Some(k) => {
                    if world.everyone[k].friendly {
                        orders.push(Command::LowerDepot { depot: depot.tag });
                    } else {
                        orders.push(Command::RaiseDepot { depot: depot.tag });
                    }
                },
                None => {},
            }
        }
        i = i + 1;
    }
    let ghost depots = orders@;
    let short = understaffed_mask(world);
    let fields = every_field_mask(world);
    i = 0;
    while i < world.townhalls.len()
        invariant
            0 <= i <= world.townhalls@.len(),
            short@ == understaffed(*world),
            fields@ == all_fields(*world),
            orders@ == depots + gathered(world.townhalls@, i as int, mule_rule(*world, *ids)),
        decreases world.townhalls@.len() - i,
    {
        let hall = &world.townhalls[i];
        let ghost before = gathered(world.townhalls@, i as int, mule_rule(*world, *ids));
        if hall.type_id == ids.townhall_upgrade && hall.can_call_mule {
            match find_nearest(&world.townhalls, &short, hall.pos) {
                Some(t) => {
                    match find_nearest(&world.mineral_fields, &fields, world.townhalls[t].pos) {
                        Some(m) => {
                            let order = Command::CallMule {
                                orbital: hall.tag,
                                mineral: world.mineral_fields[m].tag,
                            };
                            orders.push(order);
                            assert(orders@ =~= depots + before.push(order));
                        },
                        None => {},
                    }
                },
                None => {},
            }
        }
        i = i + 1;
    }
    orders
}

fn is_held_back(
    world: &World,
    next: &Option<ProductionItem>,
    ids: &RaceIds,
    config: &EconomyConfig,
) -> (held: bool)
    ensures
        held == held_back(*world, *next, *ids, *config),
{
    match next {
        Some(item) => {
            if item.id != ids.townhall_upgrade {
                return false;
            }
            let gates = gate_mask(world, config);
            match find_nearest(&world.structures, &gates, world.start) {
                Some(b) => !world.structures[b].ready && world.structures[b].build_left
                    < config.upgrade_wait,
                None => false,
            }
        },
        None => false,
    }
}

/// Trains workers at the town halls that have room, as many as are missing
/// and as the ledger covers. `next` is the item the resolver named for this
/// tick.
pub fn train_workers(
    world: &World,
    next: &Option<ProductionItem>,
    worker: &ProductionItem,
    ids: &RaceIds,
    config: &EconomyConfig,
    ledger: &mut Ledger,
) -> (orders: Vec<Command>)
    ensures
        orders@ == worker_training(*world, *next, *worker, *ids, *config, *old(ledger)).orders,
        *final(ledger) == worker_training(
            *world,
            *next,
            *worker,
            *ids,
            *config,
            *old(ledger),
        ).ledger,
{
    let mut orders: Vec<Command> = Vec::new();
    if !ledger.can_afford(worker.cost, true) || is_held_back(world, next, ids, config) {
        return orders;
    }
    let ideal = ideal_workers(world, ids, config);
    let mut wanted: u32 = if ideal > world.supply_workers {
        ideal - world.supply_workers
    } else {
        0
    };
    let mut dry = false;
    let ghost start = Drill {
        ledger: *ledger,
        orders: Seq::empty(),
        wanted: workers_wanted(*world, *ids, *config),
        dry: false,
    };
    let mut i: usize = 0;
    while i < world.townhalls.len()
        invariant
            0 <= i <= world.townhalls@.len(),
            drill(*world, *worker, start, i as int) == (Drill {
                ledger: *ledger,
                orders: orders@,
                wanted: wanted as nat,
                dry,
            }),
        decreases world.townhalls@.len() - i,
    {
        let t = &world.townhalls[i];
        if !dry && wanted > 0 && t.is_almost_idle() && t.ready {
            if ledger.can_afford(worker.cost, true) {
                let reserved = ledger.reserve(worker.cost, true);
                orders.push(Command::Train { producer: t.tag, item: worker.id });
                wanted = wanted - 1;
            } else {
                dry = true;
            }
        }
        i = i + 1;
    }
    orders
}

} // verus!
