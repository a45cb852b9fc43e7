//! The world as seen at one tick, and the commands a tick may emit. Everything
//! here is plain data: the adapter that talks to the engine fills a [`World`]
//! before the tick and performs the returned [`Command`]s after it.

use crate::geometry::Point;
use vstd::prelude::*;

verus! {

/// One unit or structure of the snapshot.
#[derive(Clone, Copy, Debug, PartialEq, Eq)]
pub struct Unit {
    /// Identity of the unit for the whole match.
    pub tag: u64,
    /// Stable type id.
    pub type_id: u32,
    pub pos: Point,
    pub health: Option<u32>,
    pub health_max: Option<u32>,
    /// Harvesters the engine wants on this town hall or gas structure.
    pub ideal_harvesters: Option<u32>,
    /// Harvesters the engine counts on this town hall or gas structure.
    pub assigned_harvesters: Option<u32>,
    /// Tag aimed at by the first queued order, if that order aims at a unit.
    pub target: Option<u64>,
    /// Number of queued orders.
    pub orders: u32,
    /// Some queued order is at least 95% complete.
    pub nearly_done: bool,
    /// Construction is complete.
    pub ready: bool,
    /// Time left until construction completes.
    pub build_left: u32,
    /// The structure is training or researching.
    pub active: bool,
    /// The worker gathers or returns a resource.
    pub collecting: bool,
    /// The worker is on its way to build, or building.
    pub constructing: bool,
    /// The worker carries a resource.
    pub carrying: bool,
    /// The first order is an attack.
    pub attacking: bool,
    /// The unit lost health since the previous tick.
    pub attacked: bool,
    /// The weapon is cooling down.
    pub on_cooldown: bool,
    pub sight_range: u32,
    pub has_addon: bool,
    pub has_reactor: bool,
    /// Owned by the agent or by an ally.
    pub friendly: bool,
    /// A structure, as opposed to a mobile unit.
    pub structure: bool,
    /// The supply-drop ability is available.
    pub can_call_mule: bool,
    /// For a geyser: nothing stands on it and a gas structure may be placed.
    pub free: bool,
}

/// How many of one type the agent owns.
#[derive(Clone, Copy, Debug, PartialEq, Eq)]
pub struct TypeCount {
    pub type_id: u32,
    /// Finished.
    pub complete: u32,
    /// Ordered or under construction.
    pub ordered: u32,
}

/// A place where a town hall can stand.
#[derive(Clone, Copy, Debug, PartialEq, Eq)]
pub struct Expansion {
    pub site: Point,
    /// Nobody holds it.
    pub free: bool,
}

/// The authoritative, read-only state of one tick.
#[derive(Clone, Debug, PartialEq, Eq)]
pub struct World {
    /// Simulation steps since the start of the match.
    pub game_loop: u32,
    pub minerals: u32,
    pub vespene: u32,
    pub supply_used: u32,
    pub supply_cap: u32,
    /// Supply taken by workers, those in production included.
    pub supply_workers: u32,
    pub start: Point,
    pub enemy_start: Point,
    /// Top of the ramp that leads into the main base, where the map has one.
    pub choke: Option<Point>,
    /// Where to gather when no choke point is known.
    pub rally_fallback: Point,
    pub workers: Vec<Unit>,
    pub townhalls: Vec<Unit>,
    pub gas_buildings: Vec<Unit>,
    /// All owned structures, town halls and gas structures included.
    pub structures: Vec<Unit>,
    /// Owned mobile units that are not workers.
    pub army: Vec<Unit>,
    /// Visible enemy units and structures.
    pub enemies: Vec<Unit>,
    pub mineral_fields: Vec<Unit>,
    pub geysers: Vec<Unit>,
    /// Every unit on the map, whoever owns it.
    pub everyone: Vec<Unit>,
    /// Expansion sites, nearest to the start first.
    pub expansions: Vec<Expansion>,
    pub counts: Vec<TypeCount>,
}

/// A fire-and-forget order for the engine.
#[derive(Clone, Copy, Debug, PartialEq, Eq)]
pub enum Command {
    Gather { worker: u64, resource: u64 },
    Stop { unit: u64 },
    Build { worker: u64, structure: u32, at: Point },
    BuildGas { worker: u64, geyser: u64 },
    Train { producer: u64, item: u32 },
    Research { producer: u64, upgrade: u32 },
    Morph { unit: u64, into: u32 },
    LowerDepot { depot: u64 },
    RaiseDepot { depot: u64 },
    CallMule { orbital: u64, mineral: u64 },
    Rally { townhall: u64, target: u64 },
    Attack { unit: u64, target: u64 },
    AttackPoint { unit: u64, at: Point },
    Follow { unit: u64, target: u64 },
    MoveTo { unit: u64, at: Point },
}

impl Unit {
    /// No order is queued.
    pub open spec fn idle(self) -> bool {
        self.orders == 0
    }

    /// Idle, or about to finish its only order.
    pub open spec fn almost_idle(self) -> bool {
        self.orders == 0 || (self.orders == 1 && self.nearly_done)
    }

    /// A production structure with room in its queue: with a reactor, fewer than
    /// two orders or two with one about to finish; without, [`Unit::almost_idle`].
    pub open spec fn almost_unused(self) -> bool {
        if self.has_reactor {
            self.orders < 2 || (self.orders == 2 && self.nearly_done)
        } else {
            self.almost_idle()
        }
    }

    /// Harvesters missing on this town hall or gas structure.
    pub open spec fn harvester_deficit(self) -> nat {
        match (self.ideal_harvesters, self.assigned_harvesters) {
            (Some(ideal), Some(assigned)) => if ideal > assigned {
                (ideal - assigned) as nat
            } else {
                0
            },
            _ => 0,
        }
    }

    /// More harvesters than the engine wants are on this structure.
    pub open spec fn oversaturated(self) -> bool {
        match (self.ideal_harvesters, self.assigned_harvesters) {
            (Some(ideal), Some(assigned)) => assigned > ideal,
            _ => false,
        }
    }

    /// A unit that stands at `pos` and does nothing.
    pub open spec fn plain(tag: u64, type_id: u32, pos: Point) -> Unit {
        Unit {
            tag,
            type_id,
            pos,
            health: None,
            health_max: None,
            ideal_harvesters: None,
            assigned_harvesters: None,
            target: None,
            orders: 0,
            nearly_done: false,
            ready: true,
            build_left: 0,
            active: false,
            collecting: false,
            constructing: false,
            carrying: false,
            attacking: false,
            attacked: false,
            on_cooldown: false,
            sight_range: 0,
            has_addon: false,
            has_reactor: false,
            friendly: false,
            structure: false,
            can_call_mule: false,
            free: false,
        }
    }

    /// A finished unit at `pos` with no orders and every flag cleared.
    pub fn at(tag: u64, type_id: u32, pos: Point) -> (unit: Unit)
        ensures
            unit == Unit::plain(tag, type_id, pos),
    {
        Unit {
            tag,
            type_id,
            pos,
            health: None,
            health_max: None,
            ideal_harvesters: None,
            assigned_harvesters: None,
            target: None,
            orders: 0,
            nearly_done: false,
            ready: true,
            build_left: 0,
            active: false,
            collecting: false,
            constructing: false,
            carrying: false,
            attacking: false,
            attacked: false,
            on_cooldown: false,
            sight_range: 0,
            has_addon: false,
            has_reactor: false,
            friendly: false,
            structure: false,
            can_call_mule: false,
            free: false,
        }
    }

    /// Tells whether no order is queued.
    pub fn is_idle(&self) -> (b: bool)
        ensures
            b == self.idle(),
    {
        self.orders == 0
    }

    /// Tells whether the unit is idle or about to finish its only order.
    pub fn is_almost_idle(&self) -> (b: bool)
        ensures
            b == self.almost_idle(),
    {
        self.orders == 0 || (self.orders == 1 && self.nearly_done)
    }

    /// Tells whether the production structure has room in its queue.
    pub fn is_almost_unused(&self) -> (b: bool)
        ensures
            b == self.almost_unused(),
    {
        if self.has_reactor {
            self.orders < 2 || (self.orders == 2 && self.nearly_done)
        } else {
            self.is_almost_idle()
        }
    }

    /// Harvesters this structure still wants; zero where the engine reports none.
    pub fn deficit(&self) -> (d: u32)
        ensures
            d == self.harvester_deficit(),
    {
        match (self.ideal_harvesters, self.assigned_harvesters) {
            (Some(ideal), Some(assigned)) => if ideal > assigned {
                ideal - assigned
            } else {
                0
            },
            _ => 0,
        }
    }

    /// Tells whether more harvesters than wanted are on this structure.
    pub fn is_oversaturated(&self) -> (b: bool)
        ensures
            b == self.oversaturated(),
    {
        match (self.ideal_harvesters, self.assigned_harvesters) {
            (Some(ideal), Some(assigned)) => assigned > ideal,
            _ => false,
        }
    }
}

impl World {
    /// A world with the given counters and nothing on the map.
    pub fn empty(start: Point, enemy_start: Point) -> (world: World)
        ensures
            world.start == start,
            world.enemy_start == enemy_start,
            world.choke is None,
            world.rally_fallback == start,
            world.game_loop == 0,
            world.minerals == 0,
            world.vespene == 0,
            world.supply_used == 0,
            world.supply_cap == 0,
            world.supply_workers == 0,
            world.workers@.len() == 0,
            world.townhalls@.len() == 0,
            world.gas_buildings@.len() == 0,
            world.structures@.len() == 0,
            world.army@.len() == 0,
            world.enemies@.len() == 0,
            world.mineral_fields@.len() == 0,
            world.geysers@.len() == 0,
            world.everyone@.len() == 0,
            world.expansions@.len() == 0,
            world.counts@.len() == 0,
    {
        World {
            game_loop: 0,
            minerals: 0,
            vespene: 0,
            supply_used: 0,
            supply_cap: 0,
            supply_workers: 0,
            start,
            enemy_start,
            choke: None,
            rally_fallback: start,
            workers: Vec::new(),
            townhalls: Vec::new(),
            gas_buildings: Vec::new(),
            structures: Vec::new(),
            army: Vec::new(),
            enemies: Vec::new(),
            mineral_fields: Vec::new(),
            geysers: Vec::new(),
            everyone: Vec::new(),
            expansions: Vec::new(),
            counts: Vec::new(),
        }
    }
}

/// The orders that `decide` gives to the first `n` units, in the order of the units.
pub open spec fn gathered(units: Seq<Unit>, n: int, decide: spec_fn(Unit) -> Option<Command>) -> Seq<
    Command,
>
    decreases n,
{
    if n <= 0 {
        Seq::empty()
    } else {
        match decide(units[n - 1]) {
            Some(order) => gathered(units, n - 1, decide).push(order),
            None => gathered(units, n - 1, decide),
        }
    }
}

/// Appends `more` to `orders`, keeping the order of both.
pub fn append_orders(orders: &mut Vec<Command>, more: &Vec<Command>)
    ensures
        final(orders)@ == old(orders)@ + more@,
{
    let mut i: usize = 0;
    while i < more.len()
        invariant
            0 <= i <= more@.len(),
            orders@ == old(orders)@ + more@.take(i as int),
        decreases more@.len() - i,
    {
        orders.push(more[i]);
        assert(more@.take(i + 1) =~= more@.take(i as int).push(more@[i as int]));
        assert(orders@ =~= old(orders)@ + more@.take(i + 1));
        i = i + 1;
    }
    assert(more@.take(more@.len() as int) =~= more@);
}

} // verus!
