//! The per-tick entry points. One tick mirrors the snapshot's counters into a
//! fresh ledger, runs production at its cadence, then worker allocation and
//! combat, and returns every order it decided on.

use crate::combat::{tick, tick_orders, CombatConfig};
use crate::dispatch::{
    charged, dispatch, dispatched, issued, placement_for, placement_request,
    research_next_in_upgrade_order, route, route_of, DispatchConfig, DispatchError,
    PlacementRequest, Route,
};
use crate::economy::{
    ability_orders, needs_supply, process_structure_abilities, process_supply, supply_order,
    train_workers, wants_supply, worker_training, EconomyConfig,
};
use crate::geometry::Point;
use crate::ids::{RaceIds, BARRACKS, MARINE};
use crate::items::ProductionItem;
use crate::ledger::Ledger;
use crate::resolver::{resolution, resolve, Leniency, ResolverConfig};
use crate::training::{army_training, train_army, ArmyCosts, TrainingConfig};
use crate::workers::{plan, rebalance_sparing, HarvestConfig};
use crate::world::{append_orders, gathered, Command, Unit, World};
use vstd::prelude::*;

verus! {

/// Everything that is fixed before the match starts.
#[derive(Clone, Copy, Debug, PartialEq, Eq)]
pub struct Settings {
    pub ids: RaceIds,
    pub resolver: ResolverConfig,
    pub dispatch: DispatchConfig,
    pub harvest: HarvestConfig,
    pub economy: EconomyConfig,
    pub combat: CombatConfig,
    pub training: TrainingConfig,
    pub costs: ArmyCosts,
    pub worker: ProductionItem,
    pub supply: ProductionItem,
    /// Production runs on every tick whose number is a multiple of this.
    pub cadence: usize,
}

/// The agent: its two priority lists, the cursor into the second, and its settings.
#[derive(Clone, Debug, PartialEq, Eq)]
pub struct Agent {
    pub build_order: Vec<ProductionItem>,
    pub upgrade_order: Vec<ProductionItem>,
    /// Index of the next upgrade to research. It only ever moves forward.
    pub upgrade_cursor: usize,
    pub settings: Settings,
}

/// What the engine's placement search found for this tick.
#[derive(Clone, Copy, Debug, PartialEq, Eq)]
pub struct Placements {
    /// For the structure that the build order asks for, if it asks for one.
    pub next: Option<Point>,
    /// For a supply provider.
    pub supply: Option<Point>,
}

/// The placement searches that a tick will want answered.
#[derive(Clone, Copy, Debug, PartialEq, Eq)]
pub struct PlacementNeeds {
    pub next: Option<PlacementRequest>,
    pub supply: Option<PlacementRequest>,
}

/// What a step leaves behind: its orders, the ledger, and the upgrade cursor.
#[verifier::ext_equal]
pub struct Outcome {
    pub orders: Seq<Command>,
    pub ledger: Ledger,
    pub cursor: usize,
}

impl Settings {
    /// The settings of a Terran agent on a map scaled to a hundred grid units
    /// per cell, with 22.4 game loops to the second: the resolver relaxes after
    /// five minutes, scouts are trained for three.
    pub open spec fn standard_for(
        worker: ProductionItem,
        supply: ProductionItem,
        costs: ArmyCosts,
    ) -> Settings {
        Settings {
            ids: RaceIds::terran_ids(),
            resolver: ResolverConfig { relax_from: 6720, relax: Leniency::for_units() },
            dispatch: DispatchConfig { gas_radius: 1100 },
            harvest: HarvestConfig { mineral_radius: 800 },
            economy: EconomyConfig {
                worker_cap: 80,
                workers_per_townhall: 16,
                workers_per_gas: 3,
                supply_from: 6720,
                supply_margin: 5,
                supply_margin_urgent: 2,
                upgrade_gate: BARRACKS,
                upgrade_wait: 12,
            },
            combat: CombatConfig {
                primary_unit: MARINE,
                production_structure: BARRACKS,
                attack_ratio: 15,
                supply_ceiling: 190,
                threat_radius: 3000,
                rally_slack: 700,
                rejoin_radius: 5000,
                retreat_below: 60,
                rejoin_above: 95,
            },
            training: TrainingConfig { scouts_until: 4032, scouts_wanted: 1, support_wanted: 3 },
            costs,
            worker,
            supply,
            cadence: 5,
        }
    }

    /// Builds the standard settings of a Terran agent.
    pub fn standard(worker: ProductionItem, supply: ProductionItem, costs: ArmyCosts) -> (settings:
        Settings)
        ensures
            settings == Settings::standard_for(worker, supply, costs),
            settings.combat.hysteresis(),
    {
        Settings {
            ids: RaceIds::terran(),
            resolver: ResolverConfig { relax_from: 6720, relax: Leniency::units_only() },
            dispatch: DispatchConfig { gas_radius: 1100 },
            harvest: HarvestConfig { mineral_radius: 800 },
            economy: EconomyConfig {
                worker_cap: 80,
                workers_per_townhall: 16,
                workers_per_gas: 3,
                supply_from: 6720,
                supply_margin: 5,
                supply_margin_urgent: 2,
                upgrade_gate: BARRACKS,
                upgrade_wait: 12,
            },
            combat: CombatConfig {
                primary_unit: MARINE,
                production_structure: BARRACKS,
                attack_ratio: 15,
                supply_ceiling: 190,
                threat_radius: 3000,
                rally_slack: 700,
                rejoin_radius: 5000,
                retreat_below: 60,
                rejoin_above: 95,
            },
            training: TrainingConfig { scouts_until: 4032, scouts_wanted: 1, support_wanted: 3 },
            costs,
            worker,
            supply,
            cadence: 5,
        }
    }
}

/// The ledger that a tick starts with: the snapshot's counters.
pub open spec fn mirror(world: World) -> Ledger {
    Ledger {
        minerals: world.minerals,
        vespene: world.vespene,
        supply_used: world.supply_used,
        supply_cap: world.supply_cap,
    }
}

/// Tick number `iteration` is the `phase`-th after a tick on which production ran.
pub open spec fn on_phase(settings: Settings, iteration: usize, phase: usize) -> bool {
    settings.cadence > 0 && iteration % settings.cadence == phase
}

/// The item that the build order asks for in this tick.
pub open spec fn current_build(agent: Agent, world: World) -> Option<ProductionItem> {
    resolution(
        agent.build_order@,
        agent.settings.ids.townhall,
        world,
        agent.settings.resolver.leniency_at(world.game_loop),
    )
}

/// Dispatching the item that the build order asks for.
pub open spec fn build_attempt(
    agent: Agent,
    world: World,
    placement: Option<Point>,
    ledger: Ledger,
) -> Result<Command, DispatchError> {
    match current_build(agent, world) {
        Some(item) => dispatched(
            item,
            placement,
            world,
            agent.settings.ids,
            agent.settings.dispatch,
            ledger,
        ),
        None => Err(DispatchError::EndOfList),
    }
}

/// The ledger after dispatching the item that the build order asks for.
pub open spec fn build_ledger(
    agent: Agent,
    world: World,
    placement: Option<Point>,
    ledger: Ledger,
) -> Ledger {
    match current_build(agent, world) {
        Some(item) => charged(build_attempt(agent, world, placement, ledger), item, ledger),
        None => ledger,
    }
}

/// Dispatching the upgrade under the cursor.
pub open spec fn research_attempt(agent: Agent, world: World, ledger: Ledger) -> Result<
    Command,
    DispatchError,
> {
    if agent.upgrade_cursor < agent.upgrade_order@.len() {
        dispatched(
            agent.upgrade_order@[agent.upgrade_cursor as int],
            None,
            world,
            agent.settings.ids,
            agent.settings.dispatch,
            ledger,
        )
    } else {
        Err(DispatchError::EndOfList)
    }
}

/// The ledger after dispatching the upgrade under the cursor.
pub open spec fn research_ledger(agent: Agent, world: World, ledger: Ledger) -> Ledger {
    if agent.upgrade_cursor < agent.upgrade_order@.len() {
        charged(
            research_attempt(agent, world, ledger),
            agent.upgrade_order@[agent.upgrade_cursor as int],
            ledger,
        )
    } else {
        ledger
    }
}

/// Production: the build order, the upgrade order, supply, structure abilities.
pub open spec fn production(
    agent: Agent,
    world: World,
    placements: Placements,
    ledger: Ledger,
) -> Outcome {
    let built = build_attempt(agent, world, placements.next, ledger);
    let after_build = build_ledger(agent, world, placements.next, ledger);
    let studied = research_attempt(agent, world, after_build);
    let after_research = research_ledger(agent, world, after_build);
    let supplied = supply_order(
        world,
        after_research,
        agent.settings.supply,
        placements.supply,
        agent.settings.economy,
    );
    Outcome {
        orders: issued(built) + issued(studied) + (match supplied {
            Some(order) => seq![order],
            None => Seq::empty(),
        }) + ability_orders(world, agent.settings.ids),
        ledger: if supplied is Some {
            after_research.debited(agent.settings.supply.cost, false)
        } else {
            after_research
        },
        cursor: if studied is Ok {
            (agent.upgrade_cursor + 1) as usize
        } else {
            agent.upgrade_cursor
        },
    }
}

/// The workers that the first `n` of `orders` send to build.
pub open spec fn builders_among(orders: Seq<Command>, n: int) -> Seq<u64>
    decreases n,
{
    if n <= 0 {
        Seq::empty()
    } else {
        match orders[n - 1] {
            Command::Build { worker, .. } => builders_among(orders, n - 1).push(worker),
            Command::BuildGas { worker, .. } => builders_among(orders, n - 1).push(worker),
            _ => builders_among(orders, n - 1),
        }
    }
}

/// The workers that `orders` send to build.
pub open spec fn builders(orders: Seq<Command>) -> Seq<u64> {
    builders_among(orders, orders.len() as int)
}

/// The base's part of a tick: production on its cadence, worker training on
/// the tick after, worker allocation always. A worker that production has
/// just sent to build is left alone by the allocation.
pub open spec fn base_step(
    agent: Agent,
    world: World,
    iteration: usize,
    placements: Placements,
    ledger: Ledger,
) -> Outcome {
    let produced = if on_phase(agent.settings, iteration, 0) {
        production(agent, world, placements, ledger)
    } else {
        Outcome { orders: Seq::empty(), ledger, cursor: agent.upgrade_cursor }
    };
    let drilled = worker_training(
        world,
        current_build(agent, world),
        agent.settings.worker,
        agent.settings.ids,
        agent.settings.economy,
        produced.ledger,
    );
    let trains = on_phase(agent.settings, iteration, 1);
    Outcome {
        orders: produced.orders + (if trains {
            drilled.orders
        } else {
            Seq::empty()
        }) + plan(world, agent.settings.harvest, builders(produced.orders)).orders,
        ledger: if trains {
            drilled.ledger
        } else {
            produced.ledger
        },
        cursor: produced.cursor,
    }
}

/// The army's part of a tick: training on the production cadence, then the
/// combat controller.
pub open spec fn army_step(agent: Agent, world: World, iteration: usize, ledger: Ledger) -> Outcome {
    let trained = army_training(world, agent.settings.costs, agent.settings.training, ledger);
    let trains = on_phase(agent.settings, iteration, 0);
    Outcome {
        orders: (if trains {
            trained.orders
        } else {
            Seq::empty()
        }) + tick_orders(world, agent.settings.combat),
        ledger: if trains {
            trained.ledger
        } else {
            ledger
        },
        cursor: agent.upgrade_cursor,
    }
}

/// One whole tick: the base first, then the army, on one ledger.
pub open spec fn step(
    agent: Agent,
    world: World,
    iteration: usize,
    placements: Placements,
) -> Outcome {
    let base = base_step(agent, world, iteration, placements, mirror(world));
    let army = army_step(agent, world, iteration, base.ledger);
    Outcome { orders: base.orders + army.orders, ledger: army.ledger, cursor: base.cursor }
}

/// The placement searches that tick number `iteration` will want answered: one
/// for the item of the build order where that is an ordinary structure, one
/// for a supply provider where supply is short.
pub open spec fn needs(agent: Agent, world: World, iteration: usize) -> PlacementNeeds {
    if on_phase(agent.settings, iteration, 0) {
        PlacementNeeds {
            next: match current_build(agent, world) {
                Some(item) => if route_of(item, agent.settings.ids) is Structure {
                    Some(placement_for(item.id, agent.settings.ids))
                } else {
                    None
                },
                None => None,
            },
            supply: if needs_supply(
                world,
                mirror(world),
                agent.settings.supply,
                agent.settings.economy,
            ) {
                Some(placement_for(agent.settings.supply.id, agent.settings.ids))
            } else {
                None
            },
        }
    } else {
        PlacementNeeds { next: None, supply: None }
    }
}

/// Every unit is told to stop.
pub open spec fn stop_rule() -> spec_fn(Unit) -> Option<Command> {
    |u: Unit| Some(Command::Stop { unit: u.tag })
}

/// Every town hall is told to rally to itself.
pub open spec fn rally_rule() -> spec_fn(Unit) -> Option<Command> {
    |u: Unit| Some(Command::Rally { townhall: u.tag, target: u.tag })
}

/// Every unit is told to attack the enemy's start.
pub open spec fn rush_rule(world: World) -> spec_fn(Unit) -> Option<Command> {
    |u: Unit| Some(Command::AttackPoint { unit: u.tag, at: world.enemy_start })
}

/// The orders that open a match: every worker stops, every town hall rallies to itself.
pub open spec fn opening_orders(world: World) -> Seq<Command> {
    gathered(world.workers@, world.workers@.len() as int, stop_rule()) + gathered(
        world.townhalls@,
        world.townhalls@.len() as int,
        rally_rule(),
    )
}

/// The orders of a worker rush: every worker attacks the enemy's start.
pub open spec fn rush_orders(world: World) -> Seq<Command> {
    gathered(world.workers@, world.workers@.len() as int, rush_rule(world))
}

fn append_issued(orders: &mut Vec<Command>, outcome: &Result<Command, DispatchError>)
    ensures
        final(orders)@ == old(orders)@ + issued(*outcome),
{
    match outcome {
        Ok(order) => {
            orders.push(*order);
            assert(orders@ =~= old(orders)@ + seq![*order]);
        },
        Err(_) => {
            assert(orders@ =~= old(orders)@ + Seq::<Command>::empty());
        },
    }
}

/// Lists the workers that `orders` send to build.
pub fn builders_of(orders: &Vec<Command>) -> (tags: Vec<u64>)
    ensures
        tags@ == builders(orders@),
{
    let mut tags: Vec<u64> = Vec::new();
    let mut i: usize = 0;
    while i < orders.len()
        invariant
            0 <= i <= orders@.len(),
            tags@ == builders_among(orders@, i as int),
        decreases orders@.len() - i,
    {
        match orders[i] {
            Command::Build { worker, .. } => {
                tags.push(worker);
            },
            Command::BuildGas { worker, .. } => {
                tags.push(worker);
            },
            _ => {},
        }
        i = i + 1;
    }
    tags
}

/// Mirrors the snapshot's counters into a fresh ledger.
pub fn open_ledger(world: &World) -> (ledger: Ledger)
    ensures
        ledger == mirror(*world),
{
    Ledger::new(world.minerals, world.vespene, world.supply_used, world.supply_cap)
}

fn is_phase(settings: &Settings, iteration: usize, phase: usize) -> (b: bool)
    ensures
        b == on_phase(*settings, iteration, phase),
{
    settings.cadence > 0 && iteration % settings.cadence == phase
}

/// Resolves the item that the build order asks for in this tick.
pub fn get_current_build_prio(agent: &Agent, world: &World) -> (next: Option<ProductionItem>)
    ensures
        next == current_build(*agent, *world),
{
    resolve(&agent.build_order, world, agent.settings.ids.townhall, &agent.settings.resolver)
}

/// Resolves the item that the build order asks for and dispatches it.
pub fn build_next_in_build_order(
    agent: &Agent,
    world: &World,
    placement: Option<Point>,
    ledger: &mut Ledger,
) -> (outcome: Result<Command, DispatchError>)
    ensures
        outcome == build_attempt(*agent, *world, placement, *old(ledger)),
        *final(ledger) == build_ledger(*agent, *world, placement, *old(ledger)),
{
    match get_current_build_prio(agent, world) {
        Some(item) => dispatch(
            &item,
            placement,
            world,
            &agent.settings.ids,
            &agent.settings.dispatch,
            ledger,
        ),
        None => Err(DispatchError::EndOfList),
    }
}

/// Tells which placement searches the tick will want answered.
pub fn placement_needs(agent: &Agent, world: &World, iteration: usize) -> (wanted: PlacementNeeds)
    ensures
        wanted == needs(*agent, *world, iteration),
{
    if !is_phase(&agent.settings, iteration, 0) {
        return PlacementNeeds { next: None, supply: None };
    }
    let next = match get_current_build_prio(agent, world) {
        Some(item) => match route(&item, &agent.settings.ids) {
            Route::Structure => Some(placement_request(item.id, &agent.settings.ids)),
            _ => None,
        },
        None => None,
    };
    let ledger = open_ledger(world);
    let supply = if wants_supply(world, &ledger, &agent.settings.supply, &agent.settings.economy) {
        Some(placement_request(agent.settings.supply.id, &agent.settings.ids))
    } else {
        None
    };
    PlacementNeeds { next, supply }
}

fn produce(agent: &mut Agent, world: &World, placements: &Placements, ledger: &mut Ledger) -> (orders:
    Vec<Command>)
    ensures
        orders@ == production(*old(agent), *world, *placements, *old(ledger)).orders,
        *final(ledger) == production(*old(agent), *world, *placements, *old(ledger)).ledger,
        final(agent).upgrade_cursor == production(
            *old(agent),
            *world,
            *placements,
            *old(ledger),
        ).cursor,
        final(agent).build_order == old(agent).build_order,
        final(agent).upgrade_order == old(agent).upgrade_order,
        final(agent).settings == old(agent).settings,
{
    let mut orders: Vec<Command> = Vec::new();
    let built = build_next_in_build_order(agent, world, placements.next, ledger);
    append_issued(&mut orders, &built);
    let studied = research_next_in_upgrade_order(
        &agent.upgrade_order,
        &mut agent.upgrade_cursor,
        world,
        &agent.settings.ids,
        &agent.settings.dispatch,
        ledger,
    );
    append_issued(&mut orders, &studied);
    let supplied = process_supply(
        world,
        ledger,
        &agent.settings.supply,
        placements.supply,
        &agent.settings.economy,
    );
    match supplied {
        Some(order) => {
            let ghost before = orders@;
            orders.push(order);
            assert(orders@ =~= before + seq![order]);
        },
        None => {
            assert(orders@ =~= orders@ + Seq::<Command>::empty());
        },
    }
    let abilities = process_structure_abilities(world, &agent.settings.ids);
    append_orders(&mut orders, &abilities);
    orders
}

/// Runs the base's part of tick number `iteration`.
pub fn process_base(
    agent: &mut Agent,
    world: &World,
    iteration: usize,
    placements: &Placements,
    ledger: &mut Ledger,
) -> (orders: Vec<Command>)
    ensures
        orders@ == base_step(*old(agent), *world, iteration, *placements, *old(ledger)).orders,
        *final(ledger) == base_step(
            *old(agent),
            *world,
            iteration,
            *placements,
            *old(ledger),
        ).ledger,
        final(agent).upgrade_cursor == base_step(
            *old(agent),
            *world,
            iteration,
            *placements,
            *old(ledger),
        ).cursor,
        final(agent).build_order == old(agent).build_order,
        final(agent).upgrade_order == old(agent).upgrade_order,
        final(agent).settings == old(agent).settings,
{
    let mut orders: Vec<Command> = Vec::new();
    if is_phase(&agent.settings, iteration, 0) {
        orders = produce(agent, world, placements, ledger);
    }
    let ghost produced = orders@;
    let spared = builders_of(&orders);
    if is_phase(&agent.settings, iteration, 1) {
        let next = get_current_build_prio(agent, world);
        let drilled = train_workers(
            world,
            &next,
            &agent.settings.worker,
            &agent.settings.ids,
            &agent.settings.economy,
            ledger,
        );
        append_orders(&mut orders, &drilled);
    } else {
        assert(orders@ =~= produced + Seq::<Command>::empty());
    }
    let moved = rebalance_sparing(world, &agent.settings.harvest, &spared);
    append_orders(&mut orders, &moved);
    orders
}

/// Runs the army's part of tick number `iteration`.
pub fn process_army(agent: &Agent, world: &World, iteration: usize, ledger: &mut Ledger) -> (orders:
    Vec<Command>)
    ensures
        orders@ == army_step(*agent, *world, iteration, *old(ledger)).orders,
        *final(ledger) == army_step(*agent, *world, iteration, *old(ledger)).ledger,
{
    let mut orders: Vec<Command> = Vec::new();
    if is_phase(&agent.settings, iteration, 0) {
        orders = train_army(world, &agent.settings.costs, &agent.settings.training, ledger);
    }
    let moves = tick(world, &agent.settings.combat);
    append_orders(&mut orders, &moves);
    orders
}

/// Runs tick number `iteration` on `world` and returns its orders: the base's
/// first, then the army's. Nothing but the upgrade cursor is carried over to
/// the next tick.
pub fn on_step(agent: &mut Agent, world: &World, iteration: usize, placements: &Placements) -> (orders:
    Vec<Command>)
    ensures
        orders@ == step(*old(agent), *world, iteration, *placements).orders,
        final(agent).upgrade_cursor == step(*old(agent), *world, iteration, *placements).cursor,
        final(agent).build_order == old(agent).build_order,
        final(agent).upgrade_order == old(agent).upgrade_order,
        final(agent).settings == old(agent).settings,
{
    let mut ledger = open_ledger(world);
    let mut orders = process_base(agent, world, iteration, placements, &mut ledger);
    let army = process_army(agent, world, iteration, &mut ledger);
    append_orders(&mut orders, &army);
    orders
}

/// Opens the match: stops every worker and rallies every town hall to itself.
pub fn on_start(world: &World) -> (orders: Vec<Command>)
    ensures
        orders@ == opening_orders(*world),
{
    let mut orders: Vec<Command> = Vec::new();
    let mut i: usize = 0;
    while i < world.workers.len()
        invariant
            0 <= i <= world.workers@.len(),
            orders@ == gathered(world.workers@, i as int, stop_rule()),
        decreases world.workers@.len() - i,
    {
        orders.push(Command::Stop { unit: world.workers[i].tag });
        i = i + 1;
    }
    let ghost stops = orders@;
    i = 0;
    while i < world.townhalls.len()
        invariant
            0 <= i <= world.townhalls@.len(),
            orders@ == stops + gathered(world.townhalls@, i as int, rally_rule()),
        decreases world.townhalls@.len() - i,
    {
        let tag = world.townhalls[i].tag;
        let ghost before = gathered(world.townhalls@, i as int, rally_rule());
        orders.push(Command::Rally { townhall: tag, target: tag });
        assert(orders@ =~= stops + before.push(Command::Rally { townhall: tag, target: tag }));
        i = i + 1;
    }
    orders
}

/// Sends every worker against the enemy's start.
pub fn worker_rush(world: &World) -> (orders: Vec<Command>)
    ensures
        orders@ == rush_orders(*world),
{
    let mut orders: Vec<Command> = Vec::new();
    let mut i: usize = 0;
    while i < world.workers.len()
        invariant
            0 <= i <= world.workers@.len(),
            orders@ == gathered(world.workers@, i as int, rush_rule(*world)),
        decreases world.workers@.len() - i,
    {
        orders.push(Command::AttackPoint { unit: world.workers[i].tag, at: world.enemy_start });
        i = i + 1;
    }
    orders
}

} // verus!
