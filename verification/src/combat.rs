//! The combat micro controller. It keeps no state between ticks: the stance of
//! the whole force and the mode of each unit are read off the snapshot.

use crate::geometry::{away_from, closer_than, dist_sq, distance_squared, is_closer, mirrored, Point};
use crate::ids::{CYCLONE, HELLION, MARINE, MEDIVAC, REAPER};
use crate::select::{find_nearest, nearest};
use crate::world::{append_orders, gathered, Command, TypeCount, Unit, World};
use vstd::prelude::*;

verus! {

/// Tunables of the controller. Radii are in grid units, thresholds in percent
/// of full health.
#[derive(Clone, Copy, Debug, PartialEq, Eq)]
pub struct CombatConfig {
    /// The unit type whose number decides the stance.
    pub primary_unit: u32,
    /// The structure type that the primary units are measured against.
    pub production_structure: u32,
    /// Attack once there are more primary units than this many per production structure.
    pub attack_ratio: u32,
    /// Attack once more supply than this is in use.
    pub supply_ceiling: u32,
    /// Enemies closer to the start than this threaten the base.
    pub threat_radius: u32,
    /// Units nearer to the rally point than this stay where they are.
    pub rally_slack: u32,
    /// A recovered unit rejoins against enemies closer than this.
    pub rejoin_radius: u32,
    /// A unit under fire retreats when its health is below this.
    pub retreat_below: u32,
    /// A unit rejoins when its health is above this.
    pub rejoin_above: u32,
}

/// The aggregate decision for one tick.
#[derive(Clone, Copy, Debug, PartialEq, Eq)]
pub enum Stance {
    Defend,
    Attack,
}

/// What a unit type does in the army.
#[derive(Clone, Copy, Debug, PartialEq, Eq)]
pub enum Role {
    Combat,
    Support,
    Scout,
    Other,
}

/// The defensive override for one unit.
#[derive(Clone, Copy, Debug, PartialEq, Eq)]
pub enum Micro {
    /// Fall back to the given point.
    Retreat { to: Point },
    /// Attack the given enemy.
    Rejoin { target: u64 },
    /// No order: the unit goes on with what it was doing.
    Hold,
}

impl CombatConfig {
    /// The two health thresholds differ, the lower one first.
    pub open spec fn hysteresis(self) -> bool {
        self.retreat_below < self.rejoin_above
    }
}

/// Marines, hellions and cyclones fight, medivacs support, reapers scout.
pub open spec fn role_of(type_id: u32) -> Role {
    if type_id == MARINE || type_id == HELLION || type_id == CYCLONE {
        Role::Combat
    } else if type_id == MEDIVAC {
        Role::Support
    } else if type_id == REAPER {
        Role::Scout
    } else {
        Role::Other
    }
}

/// How many finished units of exactly the type `type_id` the first `n` entries report.
pub open spec fn finished_among(counts: Seq<TypeCount>, type_id: u32, n: int) -> int
    decreases n,
{
    if n <= 0 {
        0
    } else {
        finished_among(counts, type_id, n - 1) + if counts[n - 1].type_id == type_id {
            counts[n - 1].complete as int
        } else {
            0
        }
    }
}

/// How many finished units of exactly the type `type_id` the agent owns.
pub open spec fn finished(world: World, type_id: u32) -> int {
    finished_among(world.counts@, type_id, world.counts@.len() as int)
}

/// Attack when the primary units outnumber the production structures by more
/// than the ratio, or when supply in use exceeds the ceiling; defend otherwise.
pub open spec fn stance_of(world: World, config: CombatConfig) -> Stance {
    if finished(world, config.primary_unit) > finished(world, config.production_structure)
        * config.attack_ratio || world.supply_used > config.supply_ceiling {
        Stance::Attack
    } else {
        Stance::Defend
    }
}

/// Some enemy stands closer to the start than the threat radius.
pub open spec fn threatened(world: World, config: CombatConfig) -> bool {
    exists|i: int|
        0 <= i < world.enemies@.len() && closer_than(
            (#[trigger] world.enemies@[i]).pos,
            world.start,
            config.threat_radius,
        )
}

/// The choke point where the map has one, the fallback point otherwise.
pub open spec fn rally_point(world: World) -> Point {
    match world.choke {
        Some(p) => p,
        None => world.rally_fallback,
    }
}

/// The mobile enemies.
pub open spec fn foes(world: World) -> Seq<bool> {
    Seq::new(world.enemies@.len(), |i: int| !world.enemies@[i].structure)
}

/// The enemy structures.
pub open spec fn forts(world: World) -> Seq<bool> {
    Seq::new(world.enemies@.len(), |i: int| world.enemies@[i].structure)
}

/// The mobile enemies closer to `p` than `radius`.
pub open spec fn foes_near(world: World, p: Point, radius: u32) -> Seq<bool> {
    Seq::new(
        world.enemies@.len(),
        |i: int| !world.enemies@[i].structure && closer_than(world.enemies@[i].pos, p, radius),
    )
}

/// The army units closer to `p` than `spacing`.
pub open spec fn crowd(world: World, p: Point, spacing: u32) -> Seq<bool> {
    Seq::new(world.army@.len(), |i: int| closer_than(world.army@[i].pos, p, spacing))
}

/// The army units with a combat role.
pub open spec fn fighters(world: World) -> Seq<bool> {
    Seq::new(world.army@.len(), |i: int| role_of(world.army@[i].type_id) is Combat)
}

/// `p` is closer to `u` than six fifths of its sight range.
pub open spec fn in_reach(u: Unit, p: Point) -> bool {
    25 * dist_sq(u.pos, p) < 36 * (u.sight_range * u.sight_range)
}

/// What a unit does when it fights: it attacks the nearest mobile enemy, or
/// steps back from it while its weapon cools down within reach of it; with no
/// mobile enemy in sight it attacks the nearest enemy structure, and with none
/// of those it advances on the enemy's start.
pub open spec fn engagement(world: World, u: Unit) -> Command {
    match nearest(world.enemies@, foes(world), u.pos) {
        Some(e) => if in_reach(u, world.enemies@[e].pos) && u.on_cooldown && !u.attacking {
            Command::MoveTo { unit: u.tag, at: mirrored(u.pos, world.enemies@[e].pos) }
        } else {
            Command::Attack { unit: u.tag, target: world.enemies@[e].tag }
        },
        None => match nearest(world.enemies@, forts(world), u.pos) {
            Some(s) => Command::Attack { unit: u.tag, target: world.enemies@[s].tag },
            None => Command::MoveTo { unit: u.tag, at: world.enemy_start },
        },
    }
}

/// The health of `u` is known and below `percent` of its maximum.
pub open spec fn health_below(u: Unit, percent: u32) -> bool {
    &&& u.health matches Some(h)
    &&& u.health_max matches Some(m)
    &&& m > 0
    &&& 100 * h < percent * m
}

/// The health of `u` is known and above `percent` of its maximum.
pub open spec fn health_above(u: Unit, percent: u32) -> bool {
    &&& u.health matches Some(h)
    &&& u.health_max matches Some(m)
    &&& m > 0
    &&& 100 * h > percent * m
}

/// The defensive override: a unit under fire with health below the lower
/// threshold retreats from its nearest mobile enemy; a unit that is not
/// attacking, with health above the upper threshold, rejoins against the
/// nearest mobile enemy within the rejoin radius; every other unit holds.
pub open spec fn micro(world: World, config: CombatConfig, u: Unit) -> Micro {
    if u.attacked && health_below(u, config.retreat_below) {
        match nearest(world.enemies@, foes(world), u.pos) {
            Some(e) => Micro::Retreat { to: mirrored(u.pos, world.enemies@[e].pos) },
            None => Micro::Hold,
        }
    } else if !u.attacking && health_above(u, config.rejoin_above) {
        match nearest(world.enemies@, foes_near(world, u.pos, config.rejoin_radius), u.pos) {
            Some(e) => Micro::Rejoin { target: world.enemies@[e].tag },
            None => Micro::Hold,
        }
    } else {
        Micro::Hold
    }
}

/// The order that carries out a defensive override.
pub open spec fn micro_order(u: Unit, decision: Micro) -> Option<Command> {
    match decision {
        Micro::Retreat { to } => Some(Command::MoveTo { unit: u.tag, at: to }),
        Micro::Rejoin { target } => Some(Command::Attack { unit: u.tag, target }),
        Micro::Hold => None,
    }
}

/// What the scouting pass orders `u` to do: scouts fight on their own.
pub open spec fn scout_order(world: World, u: Unit) -> Option<Command> {
    if role_of(u.type_id) is Scout {
        Some(engagement(world, u))
    } else {
        None
    }
}

/// What the stance orders `u` to do. On the attack every army unit fights. On
/// the defence, with the base unthreatened, a unit farther from the rally
/// point than the slack walks there; with the base threatened, combat units
/// fight and support units follow the combat unit nearest to them.
pub open spec fn stance_order(world: World, config: CombatConfig, u: Unit) -> Option<Command> {
    if role_of(u.type_id) is Other {
        None
    } else if stance_of(world, config) is Attack {
        Some(engagement(world, u))
    } else if !threatened(world, config) {
        if dist_sq(u.pos, rally_point(world)) > config.rally_slack * config.rally_slack {
            Some(Command::MoveTo { unit: u.tag, at: rally_point(world) })
        } else {
            None
        }
    } else {
        match role_of(u.type_id) {
            Role::Combat => Some(engagement(world, u)),
            Role::Support => match nearest(world.army@, fighters(world), u.pos) {
                Some(c) => Some(Command::Follow { unit: u.tag, target: world.army@[c].tag }),
                None => None,
            },
            _ => None,
        }
    }
}

/// What the defensive override orders `u` to do: it applies to combat units only.
pub open spec fn override_order(world: World, config: CombatConfig, u: Unit) -> Option<Command> {
    if role_of(u.type_id) is Combat {
        micro_order(u, micro(world, config, u))
    } else {
        None
    }
}

/// [`scout_order`] as a rule for every unit of a list.
pub open spec fn scout_rule(world: World) -> spec_fn(Unit) -> Option<Command> {
    |u: Unit| scout_order(world, u)
}

/// [`stance_order`] as a rule for every unit of a list.
pub open spec fn stance_rule(world: World, config: CombatConfig) -> spec_fn(Unit) -> Option<
    Command,
> {
    |u: Unit| stance_order(world, config, u)
}

/// [`override_order`] as a rule for every unit of a list.
pub open spec fn override_rule(world: World, config: CombatConfig) -> spec_fn(Unit) -> Option<
    Command,
> {
    |u: Unit| override_order(world, config, u)
}

/// The orders of the scouting pass.
pub open spec fn scout_orders(world: World) -> Seq<Command> {
    gathered(world.army@, world.army@.len() as int, scout_rule(world))
}

/// The orders that follow from the stance.
pub open spec fn stance_orders(world: World, config: CombatConfig) -> Seq<Command> {
    gathered(world.army@, world.army@.len() as int, stance_rule(world, config))
}

/// The orders of the defensive override.
pub open spec fn override_orders(world: World, config: CombatConfig) -> Seq<Command> {
    gathered(world.army@, world.army@.len() as int, override_rule(world, config))
}

/// The controller's orders for one tick: the scouts first, then what the
/// stance asks for, then the defensive override.
pub open spec fn tick_orders(world: World, config: CombatConfig) -> Seq<Command> {
    scout_orders(world) + stance_orders(world, config) + override_orders(world, config)
}

/// A unit whose health lies between the two thresholds, bounds included, is
/// given no order by the defensive override, whatever else holds of it: it
/// stays in the mode it was in.
pub proof fn steady_between_thresholds(world: World, config: CombatConfig, u: Unit)
    requires
        u.health matches Some(h) && u.health_max matches Some(m) && config.retreat_below * m
            <= 100 * h <= config.rejoin_above * m,
    ensures
        micro(world, config, u) is Hold,
        override_order(world, config, u) is None,
{
}

/// With two different thresholds no health is at once low enough to retreat
/// and high enough to rejoin.
pub proof fn thresholds_never_overlap(config: CombatConfig, u: Unit)
    requires
        config.hysteresis(),
    ensures
        !(health_below(u, config.retreat_below) && health_above(u, config.rejoin_above)),
{
    if health_below(u, config.retreat_below) && health_above(u, config.rejoin_above) {
        let h = u.health->0;
        let m = u.health_max->0;
        assert(config.retreat_below * m <= config.rejoin_above * m) by (nonlinear_arith)
            requires
                config.retreat_below < config.rejoin_above,
                m > 0,
        ;
    }
}

/// The role a unit type plays in the army.
pub fn role(type_id: u32) -> (r: Role)
    ensures
        r == role_of(type_id),
{
    if type_id == MARINE || type_id == HELLION || type_id == CYCLONE {
        Role::Combat
    } else if type_id == MEDIVAC {
        Role::Support
    } else if type_id == REAPER {
        Role::Scout
    } else {
        Role::Other
    }
}

/// Counts the finished units of exactly the type `type_id`.
pub fn count_finished(world: &World, type_id: u32) -> (n: u128)
    ensures
        n == finished(*world, type_id),
        n <= 0xFFFF_FFFF_FFFF_FFFF * 0xFFFF_FFFF,
{
    let mut n: u128 = 0;
    let mut i: usize = 0;
    while i < world.counts.len()
        invariant
            0 <= i <= world.counts@.len(),
            n == finished_among(world.counts@, type_id, i as int),
            n <= i * 0xFFFF_FFFF,
        decreases world.counts@.len() - i,
    {
        if world.counts[i].type_id == type_id {
            n = n + world.counts[i].complete as u128;
        }
        i = i + 1;
    }
    n
}

/// Decides the stance of the whole force for this tick.
pub fn stance(world: &World, config: &CombatConfig) -> (s: Stance)
    ensures
        s == stance_of(*world, *config),
{
    let primary = count_finished(world, config.primary_unit);
    let producers = count_finished(world, config.production_structure);
    let ratio: u128 = config.attack_ratio as u128;
    assert(producers * ratio <= 0xFFFF_FFFF_FFFF_FFFF * 0xFFFF_FFFF * 0xFFFF_FFFF)
        by (nonlinear_arith)
        requires
            0 <= producers <= 0xFFFF_FFFF_FFFF_FFFF * 0xFFFF_FFFF,
            0 <= ratio <= 0xFFFF_FFFF,
    ;
    if primary > producers * ratio || world.supply_used > config.supply_ceiling {
        Stance::Attack
    } else {
        Stance::Defend
    }
}

/// Tells whether an enemy stands within the threat radius of the start.
pub fn is_threatened(world: &World, config: &CombatConfig) -> (b: bool)
    ensures
        b == threatened(*world, *config),
{
    let mut i: usize = 0;
    while i < world.enemies.len()
        invariant
            0 <= i <= world.enemies@.len(),
            forall|j: int|
                0 <= j < i ==> !closer_than(
                    (#[trigger] world.enemies@[j]).pos,
                    world.start,
                    config.threat_radius,
                ),
        decreases world.enemies@.len() - i,
    {
        if is_closer(world.enemies[i].pos, world.start, config.threat_radius) {
            return true;
        }
        i = i + 1;
    }
    false
}

/// Where the army gathers.
pub fn rally(world: &World) -> (p: Point)
    ensures
        p == rally_point(*world),
{
    match world.choke {
        Some(p) => p,
        None => world.rally_fallback,
    }
}

fn foe_mask(world: &World) -> (mask: Vec<bool>)
    ensures
        mask@ == foes(*world),
{
    let mut mask: Vec<bool> = Vec::new();
    let mut i: usize = 0;
    while i < world.enemies.len()
        invariant
            0 <= i <= world.enemies@.len(),
            mask@.len() == i,
            forall|j: int| 0 <= j < i ==> mask@[j] == foes(*world)[j],
        decreases world.enemies@.len() - i,
    {
        mask.push(!world.enemies[i].structure);
        i = i + 1;
    }
    assert(mask@ =~= foes(*world));
    mask
}

fn fort_mask(world: &World) -> (mask: Vec<bool>)
    ensures
        mask@ == forts(*world),
{
    let mut mask: Vec<bool> = Vec::new();
    let mut i: usize = 0;
    while i < world.enemies.len()
        invariant
            0 <= i <= world.enemies@.len(),
            mask@.len() == i,
            forall|j: int| 0 <= j < i ==> mask@[j] == forts(*world)[j],
        decreases world.enemies@.len() - i,
    {
        mask.push(world.enemies[i].structure);
        i = i + 1;
    }
    assert(mask@ =~= forts(*world));
    mask
}

fn near_foe_mask(world: &World, p: Point, radius: u32) -> (mask: Vec<bool>)
    ensures
        mask@ == foes_near(*world, p, radius),
{
    let mut mask: Vec<bool> = Vec::new();
    let mut i: usize = 0;
    while i < world.enemies.len()
        invariant
            0 <= i <= world.enemies@.len(),
            mask@.len() == i,
            forall|j: int| 0 <= j < i ==> mask@[j] == foes_near(*world, p, radius)[j],
        decreases world.enemies@.len() - i,
    {
        let e = &world.enemies[i];
        mask.push(!e.structure && is_closer(e.pos, p, radius));
        i = i + 1;
    }
    assert(mask@ =~= foes_near(*world, p, radius));
    mask
}

fn fighter_mask(world: &World) -> (mask: Vec<bool>)
    ensures
        mask@ == fighters(*world),
{
    let mut mask: Vec<bool> = Vec::new();
    let mut i: usize = 0;
    while i < world.army.len()
        invariant
            0 <= i <= world.army@.len(),
            mask@.len() == i,
            forall|j: int| 0 <= j < i ==> mask@[j] == fighters(*world)[j],
        decreases world.army@.len() - i,
    {
        let fights = match role(world.army[i].type_id) {
            Role::Combat => true,
            _ => false,
        };
        mask.push(fights);
        i = i + 1;
    }
    assert(mask@ =~= fighters(*world));
    mask
}

fn within_reach(u: &Unit, p: Point) -> (b: bool)
    ensures
        b == in_reach(*u, p),
{
    let d = distance_squared(u.pos, p);
    let s: u128 = u.sight_range as u128;
    assert(s * s <= 0xFFFF_FFFF * 0xFFFF_FFFF) by (nonlinear_arith)
        requires
            0 <= s <= 0xFFFF_FFFF,
    ;
    25 * d < 36 * (s * s)
}

fn engage(world: &World, u: &Unit, mobile: &Vec<bool>, fixed: &Vec<bool>) -> (order: Command)
    requires
        mobile@ == foes(*world),
        fixed@ == forts(*world),
    ensures
        order == engagement(*world, *u),
{
    match find_nearest(&world.enemies, mobile, u.pos) {
        Some(e) => {
            let enemy = &world.enemies[e];
            if within_reach(u, enemy.pos) && u.on_cooldown && !u.attacking {
                Command::MoveTo { unit: u.tag, at: away_from(u.pos, enemy.pos) }
            } else {
                Command::Attack { unit: u.tag, target: enemy.tag }
            }
        },
        None => match find_nearest(&world.enemies, fixed, u.pos) {
            Some(s) => Command::Attack { unit: u.tag, target: world.enemies[s].tag },
            None => Command::MoveTo { unit: u.tag, at: world.enemy_start },
        },
    }
}

/// Decides what the unit `u` does when it fights.
pub fn combat_ai(world: &World, u: &Unit) -> (order: Command)
    ensures
        order == engagement(*world, *u),
{
    let mobile = foe_mask(world);
    let fixed = fort_mask(world);
    engage(world, u, &mobile, &fixed)
}

fn scaled(percent: u32, full: u32) -> (product: u64)
    ensures
        product == percent * full,
{
    assert(percent * full <= 0xFFFF_FFFF * 0xFFFF_FFFF) by (nonlinear_arith)
        requires
            0 <= percent <= 0xFFFF_FFFF,
            0 <= full <= 0xFFFF_FFFF,
    ;
    (percent as u64) * (full as u64)
}

fn is_health_below(u: &Unit, percent: u32) -> (b: bool)
    ensures
        b == health_below(*u, percent),
{
    match (u.health, u.health_max) {
        (Some(h), Some(m)) => m > 0 && 100 * (h as u64) < scaled(percent, m),
        _ => false,
    }
}

fn is_health_above(u: &Unit, percent: u32) -> (b: bool)
    ensures
        b == health_above(*u, percent),
{
    match (u.health, u.health_max) {
        (Some(h), Some(m)) => m > 0 && 100 * (h as u64) > scaled(percent, m),
        _ => false,
    }
}

fn override_for(world: &World, config: &CombatConfig, u: &Unit, mobile: &Vec<bool>) -> (decision:
    Micro)
    requires
        mobile@ == foes(*world),
    ensures
        decision == micro(*world, *config, *u),
{
    if u.attacked && is_health_below(u, config.retreat_below) {
        match find_nearest(&world.enemies, mobile, u.pos) {
            Some(e) => Micro::Retreat { to: away_from(u.pos, world.enemies[e].pos) },
            None => Micro::Hold,
        }
    } else if !u.attacking && is_health_above(u, config.rejoin_above) {
        let near = near_foe_mask(world, u.pos, config.rejoin_radius);
        match find_nearest(&world.enemies, &near, u.pos) {
            Some(e) => Micro::Rejoin { target: world.enemies[e].tag },
            None => Micro::Hold,
        }
    } else {
        Micro::Hold
    }
}

/// Decides the defensive override for the unit `u`.
pub fn defensive_micro(world: &World, config: &CombatConfig, u: &Unit) -> (decision: Micro)
    ensures
        decision == micro(*world, *config, *u),
{
    let mobile = foe_mask(world);
    override_for(world, config, u, &mobile)
}

/// Turns a defensive override into the order that carries it out.
pub fn order_of(u: &Unit, decision: Micro) -> (order: Option<Command>)
    ensures
        order == micro_order(*u, decision),
{
    match decision {
        Micro::Retreat { to } => Some(Command::MoveTo { unit: u.tag, at: to }),
        Micro::Rejoin { target } => Some(Command::Attack { unit: u.tag, target }),
        Micro::Hold => None,
    }
}

/// Has every scout fight on its own.
pub fn scout_and_harass(world: &World) -> (orders: Vec<Command>)
    ensures
        orders@ == scout_orders(*world),
{
    let mobile = foe_mask(world);
    let fixed = fort_mask(world);
    let mut orders: Vec<Command> = Vec::new();
    let mut i: usize = 0;
    while i < world.army.len()
        invariant
            0 <= i <= world.army@.len(),
            mobile@ == foes(*world),
            fixed@ == forts(*world),
            orders@ == gathered(world.army@, i as int, scout_rule(*world)),
        decreases world.army@.len() - i,
    {
        let u = &world.army[i];
        match role(u.type_id) {
            Role::Scout => {
                orders.push(engage(world, u, &mobile, &fixed));
            },
            _ => {},
        }
        i = i + 1;
    }
    orders
}

/// Moves the army as the stance asks: on the attack, or gathered at the rally
/// point, or against what threatens the base.
pub fn move_idle_army(world: &World, config: &CombatConfig) -> (orders: Vec<Command>)
    ensures
        orders@ == stance_orders(*world, *config),
{
    let mobile = foe_mask(world);
    let fixed = fort_mask(world);
    let core = fighter_mask(world);
    let attacking = match stance(world, config) {
        Stance::Attack => true,
        Stance::Defend => false,
    };
    let alarm = is_threatened(world, config);
    let point = rally(world);
    let slack: u128 = config.rally_slack as u128;
    assert(slack * slack <= 0xFFFF_FFFF * 0xFFFF_FFFF) by (nonlinear_arith)
        requires
            0 <= slack <= 0xFFFF_FFFF,
    ;
    let slack_sq: u128 = slack * slack;
    let mut orders: Vec<Command> = Vec::new();
    let mut i: usize = 0;
    while i < world.army.len()
        invariant
            0 <= i <= world.army@.len(),
            mobile@ == foes(*world),
            fixed@ == forts(*world),
            core@ == fighters(*world),
            attacking == (stance_of(*world, *config) is Attack),
            alarm == threatened(*world, *config),
            point == rally_point(*world),
            slack_sq == config.rally_slack * config.rally_slack,
            orders@ == gathered(world.army@, i as int, stance_rule(*world, *config)),
        decreases world.army@.len() - i,
    {
        let u = &world.army[i];
        let r = role(u.type_id);
        let order: Option<Command> = match r {
            Role::Other => None,
            _ => {
                if attacking {
                    Some(engage(world, u, &mobile, &fixed))
                } else if !alarm {
                    if distance_squared(u.pos, point) > slack_sq {
                        Some(Command::MoveTo { unit: u.tag, at: point })
                    } else {
                        None
                    }
                } else {
                    match r {
                        Role::Combat => Some(engage(world, u, &mobile, &fixed)),
                        Role::Support => match find_nearest(&world.army, &core, u.pos) {
                            Some(c) => Some(
                                Command::Follow { unit: u.tag, target: world.army[c].tag },
                            ),
                            None => None,
                        },
                        _ => None,
                    }
                }
            },
        };
        assert(order == stance_order(*world, *config, *u));
        match order {
            Some(c) => {
                orders.push(c);
            },
            None => {},
        }
        i = i + 1;
    }
    orders
}

/// Applies the defensive override to every combat unit.
pub fn move_active_army(world: &World, config: &CombatConfig) -> (orders: Vec<Command>)
    ensures
        orders@ == override_orders(*world, *config),
{
    let mobile = foe_mask(world);
    let mut orders: Vec<Command> = Vec::new();
    let mut i: usize = 0;
    while i < world.army.len()
        invariant
            0 <= i <= world.army@.len(),
            mobile@ == foes(*world),
            orders@ == gathered(world.army@, i as int, override_rule(*world, *config)),
        decreases world.army@.len() - i,
    {
        let u = &world.army[i];
        match role(u.type_id) {
            Role::Combat => {
                let decision = override_for(world, config, u, &mobile);
                match order_of(u, decision) {
                    Some(c) => {
                        orders.push(c);
                    },
                    None => {},
                }
            },
            _ => {},
        }
        i = i + 1;
    }
    orders
}

/// Finds the army unit that crowds `u` most: the nearest of those closer to
/// it than `spacing`. A unit that is itself part of the army is its own
/// nearest neighbour.
pub fn closest_crowding_ally(world: &World, u: &Unit, spacing: u32) -> (found: Option<usize>)
    ensures
        nearest(world.army@, crowd(*world, u.pos, spacing), u.pos) == match found {
            Some(k) => Some(k as int),
            None => None,
        },
        found matches Some(k) ==> k < world.army@.len(),
{
    let mut mask: Vec<bool> = Vec::new();
    let mut i: usize = 0;
    while i < world.army.len()
        invariant
            0 <= i <= world.army@.len(),
            mask@.len() == i,
            forall|j: int| 0 <= j < i ==> mask@[j] == crowd(*world, u.pos, spacing)[j],
        decreases world.army@.len() - i,
    {
        mask.push(is_closer(world.army[i].pos, u.pos, spacing));
        i = i + 1;
    }
    assert(mask@ =~= crowd(*world, u.pos, spacing));
    find_nearest(&world.army, &mask, u.pos)
}

/// Runs the controller on `world`: decides the stance and gives every army
/// unit its order for this tick.
pub fn tick(world: &World, config: &CombatConfig) -> (orders: Vec<Command>)
    ensures
        orders@ == tick_orders(*world, *config),
{
    let mut orders = scout_and_harass(world);
    let idle = move_idle_army(world, config);
    append_orders(&mut orders, &idle);
    let active = move_active_army(world, config);
    append_orders(&mut orders, &active);
    orders
}

} // verus!
