//! Training the army: every production structure with room queues the unit
//! it is there for, as far as the ledger reaches.

use crate::combat::{count_finished, finished};
use crate::ids::{BARRACKS, CYCLONE, FACTORY, MARINE, MEDIVAC, REAPER, STARPORT};
use crate::ledger::{Cost, Ledger};
use crate::world::{Command, Unit, World};
use vstd::prelude::*;

verus! {

/// Prices of the units the army is made of.
#[derive(Clone, Copy, Debug, PartialEq, Eq)]
pub struct ArmyCosts {
    pub marine: Cost,
    pub reaper: Cost,
    pub cyclone: Cost,
    pub medivac: Cost,
}

/// Tunables of army training.
#[derive(Clone, Copy, Debug, PartialEq, Eq)]
pub struct TrainingConfig {
    /// Scouts are trained only before this game loop.
    pub scouts_until: u32,
    /// Scouts are trained while fewer than this are finished.
    pub scouts_wanted: u32,
    /// Support units are trained while fewer than this are finished.
    pub support_wanted: u32,
}

/// Where army training stands: what the ledger still holds and the orders so far.
#[verifier::ext_equal]
pub struct Muster {
    pub ledger: Ledger,
    pub orders: Seq<Command>,
}

/// A finished structure that is not working, or that has a reactor and fewer
/// than two orders.
pub open spec fn has_room(b: Unit) -> bool {
    b.ready && (!b.active || (b.orders < 2 && b.has_reactor))
}

/// Queues one `unit` at `b` if the ledger covers it, supply included.
pub open spec fn enlisted(s: Muster, b: Unit, unit: u32, cost: Cost) -> Muster {
    if s.ledger.affords(cost, true) {
        Muster {
            ledger: s.ledger.debited(cost, true),
            orders: s.orders.push(Command::Train { producer: b.tag, item: unit }),
        }
    } else {
        s
    }
}

/// A scout is what the barracks trains while too few are finished, the time
/// for scouting has not passed, and the ledger covers one.
pub open spec fn scout_is_due(
    world: World,
    costs: ArmyCosts,
    config: TrainingConfig,
    ledger: Ledger,
) -> bool {
    finished(world, REAPER) < config.scouts_wanted && world.game_loop < config.scouts_until
        && ledger.affords(costs.reaper, false)
}

/// One structure's turn. A barracks trains a scout or else a marine, twice
/// with a reactor; a factory trains a cyclone; a starport trains a medivac
/// while too few are finished. Structures without room and structures of other
/// types train nothing.
pub open spec fn muster_one(
    world: World,
    costs: ArmyCosts,
    config: TrainingConfig,
    b: Unit,
    s: Muster,
) -> Muster {
    if !has_room(b) {
        s
    } else if b.type_id == BARRACKS {
        let scout = scout_is_due(world, costs, config, s.ledger);
        let unit = if scout {
            REAPER
        } else {
            MARINE
        };
        let cost = if scout {
            costs.reaper
        } else {
            costs.marine
        };
        let once = enlisted(s, b, unit, cost);
        if b.has_reactor {
            enlisted(once, b, unit, cost)
        } else {
            once
        }
    } else if b.type_id == FACTORY {
        enlisted(s, b, CYCLONE, costs.cyclone)
    } else if b.type_id == STARPORT {
        if finished(world, MEDIVAC) < config.support_wanted {
            enlisted(s, b, MEDIVAC, costs.medivac)
        } else {
            s
        }
    } else {
        s
    }
}

/// The turns of the first `upto` structures.
pub open spec fn muster(
    world: World,
    costs: ArmyCosts,
    config: TrainingConfig,
    s: Muster,
    upto: int,
) -> Muster
    decreases upto,
{
    if upto <= 0 {
        s
    } else {
        muster_one(
            world,
            costs,
            config,
            world.structures@[upto - 1],
            muster(world, costs, config, s, upto - 1),
        )
    }
}

/// Army training in one tick.
pub open spec fn army_training(
    world: World,
    costs: ArmyCosts,
    config: TrainingConfig,
    ledger: Ledger,
) -> Muster {
    muster(
        world,
        costs,
        config,
        Muster { ledger, orders: Seq::empty() },
        world.structures@.len() as int,
    )
}

/// Army training only ever spends: afterwards the ledger holds no more
/// minerals and vespene than before and no less supply in use, its cap is
/// what it was, and no earlier order is gone.
pub proof fn training_is_paid_for(
    world: World,
    costs: ArmyCosts,
    config: TrainingConfig,
    s: Muster,
    upto: int,
)
    requires
        upto <= world.structures@.len(),
    ensures
        muster(world, costs, config, s, upto).ledger.minerals <= s.ledger.minerals,
        muster(world, costs, config, s, upto).ledger.vespene <= s.ledger.vespene,
        muster(world, costs, config, s, upto).ledger.supply_used >= s.ledger.supply_used,
        muster(world, costs, config, s, upto).ledger.supply_cap == s.ledger.supply_cap,
        muster(world, costs, config, s, upto).orders.len() >= s.orders.len(),
    decreases upto,
{
    if upto > 0 {
        training_is_paid_for(world, costs, config, s, upto - 1);
    }
}

/// Queues one `unit` at `building` if the ledger covers it, and debits the ledger.
pub fn train_army_unit(
    building: &Unit,
    unit: u32,
    cost: Cost,
    ledger: &mut Ledger,
    orders: &mut Vec<Command>,
)
    ensures
        (Muster { ledger: *final(ledger), orders: final(orders)@ }) == enlisted(
            Muster { ledger: *old(ledger), orders: old(orders)@ },
            *building,
            unit,
            cost,
        ),
{
    if ledger.can_afford(cost, true) {
        let reserved = ledger.reserve(cost, true);
        orders.push(Command::Train { producer: building.tag, item: unit });
    }
}

/// Goes through the production structures and queues their units.
pub fn train_army(
    world: &World,
    costs: &ArmyCosts,
    config: &TrainingConfig,
    ledger: &mut Ledger,
) -> (orders: Vec<Command>)
    ensures
        orders@ == army_training(*world, *costs, *config, *old(ledger)).orders,
        *final(ledger) == army_training(*world, *costs, *config, *old(ledger)).ledger,
{
    let mut orders: Vec<Command> = Vec::new();
    let scouts = count_finished(world, REAPER);
    let medics = count_finished(world, MEDIVAC);
    let ghost start = Muster { ledger: *ledger, orders: Seq::empty() };
    let mut i: usize = 0;
    while i < world.structures.len()
        invariant
            0 <= i <= world.structures@.len(),
            scouts == finished(*world, REAPER),
            medics == finished(*world, MEDIVAC),
            muster(*world, *costs, *config, start, i as int) == (Muster {
                ledger: *ledger,
                orders: orders@,
            }),
        decreases world.structures@.len() - i,
    {
        let b = &world.structures[i];
        if b.ready && (!b.active || (b.orders < 2 && b.has_reactor)) {
            if b.type_id == BARRACKS {
                let scout = scouts < config.scouts_wanted as u128 && world.game_loop
                    < config.scouts_until && ledger.can_afford(costs.reaper, false);
                let unit = if scout {
                    REAPER
                } else {
                    MARINE
                };
                let cost = if scout {
                    costs.reaper
                } else {
                    costs.marine
                };
                train_army_unit(b, unit, cost, ledger, &mut orders);
                if b.has_reactor {
                    train_army_unit(b, unit, cost, ledger, &mut orders);
                }
            } else if b.type_id == FACTORY {
                train_army_unit(b, CYCLONE, costs.cyclone, ledger, &mut orders);
            } else if b.type_id == STARPORT {
                if medics < config.support_wanted as u128 {
                    train_army_unit(b, MEDIVAC, costs.medivac, ledger, &mut orders);
                }
            }
        }
        i = i + 1;
    }
    orders
}

} // verus!
