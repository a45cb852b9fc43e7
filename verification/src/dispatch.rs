//! The production dispatcher. Given the item to pursue it finds who makes it
//! and where, issues the order, and debits the ledger. Searching the map for a
//! placement is left to the engine: the caller asks it what
//! [`placement_request`] describes and hands the answer in.

use crate::geometry::{closer_than, is_closer, Point};
use crate::ids::{addon_base, addon_carrier, canonical, group_of, RaceIds, BARRACKS, FACTORY, STARPORT};
use crate::items::{ItemKind, ProductionItem};
use crate::ledger::Ledger;
use crate::select::{find_first, find_nearest, first_set, nearest};
use crate::world::{Command, TypeCount, Unit, World};
use vstd::prelude::*;

verus! {

/// Why an item could not be dispatched in this tick. None of these is fatal:
/// the same item is tried again at the next eligible tick.
#[derive(Clone, Copy, Debug, PartialEq, Eq)]
pub enum DispatchError {
    /// The priority list has nothing left to pursue.
    EndOfList,
    CannotAfford { item: u32 },
    UnfulfilledTechRequirement { item: u32, requirement: u32 },
    NoSuitableLocation { item: u32, near: Point },
    NoSuitableWorker,
    NoProducer { item: u32 },
    NoResearcher { upgrade: u32 },
    /// The item is not something its kind of producer can make.
    InvalidArgument { item: u32 },
}

/// The branch of the dispatcher that an item takes.
#[derive(Clone, Copy, Debug, PartialEq, Eq)]
pub enum Route {
    Expansion,
    TownhallUpgrade,
    Gas,
    Train,
    Addon,
    Structure,
    Research,
}

/// What to ask of the engine's placement search for a structure.
#[derive(Clone, Copy, Debug, PartialEq, Eq)]
pub struct PlacementRequest {
    pub structure: u32,
    /// How far from the start towards the map's centre the search begins, in cells.
    pub towards_center: u32,
    /// Grid step of the search, in cells.
    pub step: u32,
    /// Leave room for an addon beside the structure.
    pub addon_room: bool,
    /// Largest distance from the anchor that is searched, in cells.
    pub max_distance: u32,
}

/// Tunables of the dispatcher.
#[derive(Clone, Copy, Debug, PartialEq, Eq)]
pub struct DispatchConfig {
    /// A geyser belongs to a town hall when it is closer than this.
    pub gas_radius: u32,
}

/// The branch for `item`: research for upgrades; for the rest the town hall,
/// its upgrade and the gas structure go by their ids, everything else by kind.
pub open spec fn route_of(item: ProductionItem, ids: RaceIds) -> Route {
    if item.kind is Upgrade {
        Route::Research
    } else if item.id == ids.townhall {
        Route::Expansion
    } else if item.id == ids.townhall_upgrade {
        Route::TownhallUpgrade
    } else if item.id == ids.gas {
        Route::Gas
    } else {
        match item.kind {
            ItemKind::Unit => Route::Train,
            ItemKind::Addon => Route::Addon,
            _ => Route::Structure,
        }
    }
}

/// Supply providers are searched close to the start on a fine grid, everything
/// else farther out on a coarser one; production structures keep room for
/// an addon.
pub open spec fn placement_for(structure: u32, ids: RaceIds) -> PlacementRequest {
    PlacementRequest {
        structure,
        towards_center: if structure == ids.supply {
            2
        } else {
            10
        },
        step: if structure == ids.supply {
            3
        } else {
            4
        },
        addon_room: structure == BARRACKS || structure == FACTORY || structure == STARPORT,
        max_distance: 30,
    }
}

/// How many finished units of the alias group `group` the first `n` entries report.
pub open spec fn completed_among(counts: Seq<TypeCount>, group: u32, n: int) -> int
    decreases n,
{
    if n <= 0 {
        0
    } else {
        completed_among(counts, group, n - 1) + if group_of(counts[n - 1].type_id) == group {
            counts[n - 1].complete as int
        } else {
            0
        }
    }
}

/// How many finished units of the alias group `group` the agent owns.
pub open spec fn completed(world: World, group: u32) -> int {
    completed_among(world.counts@, group, world.counts@.len() as int)
}

/// The item asks for a type of which nothing is finished yet.
pub open spec fn lacks_requirement(item: ProductionItem, world: World) -> bool {
    item.requirement matches Some(r) && completed(world, group_of(r)) == 0
}

/// Workers that can be sent to build: gathering, not on their way to build,
/// not carrying anything.
pub open spec fn free_workers(world: World) -> Seq<bool> {
    Seq::new(
        world.workers@.len(),
        |i: int|
            world.workers@[i].collecting && !world.workers@[i].constructing
                && !world.workers@[i].carrying,
    )
}

/// Expansion sites that nobody holds.
pub open spec fn free_sites(world: World) -> Seq<bool> {
    Seq::new(world.expansions@.len(), |i: int| world.expansions@[i].free)
}

/// Town halls that can take their upgrade: of the base type and without orders.
pub open spec fn upgradable_halls(world: World, ids: RaceIds) -> Seq<bool> {
    Seq::new(
        world.townhalls@.len(),
        |i: int| world.townhalls@[i].type_id == ids.townhall && world.townhalls@[i].idle(),
    )
}

/// Free geysers closer to `base` than `radius`.
pub open spec fn geysers_near(world: World, base: Point, radius: u32) -> Seq<bool> {
    Seq::new(
        world.geysers@.len(),
        |i: int| world.geysers@[i].free && closer_than(world.geysers@[i].pos, base, radius),
    )
}

/// The geyser to build on: the first free geyser of the first of the first
/// `n` town halls that has one.
pub open spec fn gas_site(world: World, radius: u32, n: int) -> Option<int>
    decreases n,
{
    if n <= 0 {
        None
    } else {
        match gas_site(world, radius, n - 1) {
            Some(g) => Some(g),
            None => first_set(geysers_near(world, world.townhalls@[n - 1].pos, radius)),
        }
    }
}

/// Finished structures of type `producer` with room in their queue.
pub open spec fn trainers(world: World, producer: u32) -> Seq<bool> {
    Seq::new(
        world.structures@.len(),
        |i: int|
            world.structures@[i].type_id == producer && world.structures@[i].ready
                && world.structures@[i].almost_unused(),
    )
}

/// Finished structures of type `carrier` without orders and without an addon.
pub open spec fn addon_hosts(world: World, carrier: u32) -> Seq<bool> {
    Seq::new(
        world.structures@.len(),
        |i: int|
            world.structures@[i].type_id == carrier && world.structures@[i].idle()
                && world.structures@[i].ready && !world.structures@[i].has_addon,
    )
}

/// Finished structures of type `producer` without orders.
pub open spec fn laboratories(world: World, producer: u32) -> Seq<bool> {
    Seq::new(
        world.structures@.len(),
        |i: int|
            world.structures@[i].type_id == producer && world.structures@[i].idle()
                && world.structures@[i].ready,
    )
}

/// Sends the free worker nearest to `at` to build `structure` there.
pub open spec fn built_at(world: World, structure: u32, at: Point) -> Result<
    Command,
    DispatchError,
> {
    match nearest(world.workers@, free_workers(world), at) {
        Some(w) => Ok(Command::Build { worker: world.workers@[w].tag, structure, at }),
        None => Err(DispatchError::NoSuitableWorker),
    }
}

/// A town hall on the first free expansion site, built by the free worker
/// nearest to the site.
pub open spec fn expanded(world: World, ids: RaceIds) -> Result<Command, DispatchError> {
    match first_set(free_sites(world)) {
        Some(e) => built_at(world, ids.townhall, world.expansions@[e].site),
        None => Err(DispatchError::NoSuitableLocation { item: ids.townhall, near: world.start }),
    }
}

/// The upgrade of the idle base town hall nearest to the start.
pub open spec fn hall_upgraded(world: World, ids: RaceIds, item: ProductionItem) -> Result<
    Command,
    DispatchError,
> {
    match nearest(world.townhalls@, upgradable_halls(world, ids), world.start) {
        Some(t) => Ok(Command::Morph { unit: world.townhalls@[t].tag, into: item.id }),
        None => Err(DispatchError::NoProducer { item: item.id }),
    }
}

/// A gas structure on the geyser of [`gas_site`], built by the free worker
/// nearest to the geyser.
pub open spec fn gas_built(world: World, ids: RaceIds, config: DispatchConfig) -> Result<
    Command,
    DispatchError,
> {
    match gas_site(world, config.gas_radius, world.townhalls@.len() as int) {
        Some(g) => match nearest(world.workers@, free_workers(world), world.geysers@[g].pos) {
            Some(w) => Ok(
                Command::BuildGas { worker: world.workers@[w].tag, geyser: world.geysers@[g].tag },
            ),
            None => Err(DispatchError::NoSuitableWorker),
        },
        None => Err(DispatchError::NoSuitableLocation { item: ids.gas, near: world.start }),
    }
}

/// The item queued at the structure of its producer's type that has room and
/// stands nearest to the start.
pub open spec fn trained(world: World, item: ProductionItem) -> Result<Command, DispatchError> {
    match item.producer {
        Some(p) => match nearest(world.structures@, trainers(world, p), world.start) {
            Some(s) => Ok(Command::Train { producer: world.structures@[s].tag, item: item.id }),
            None => Err(DispatchError::NoProducer { item: item.id }),
        },
        None => Err(DispatchError::NoProducer { item: item.id }),
    }
}

/// The addon built by its carrier: the idle one without addon that stands
/// nearest to the start.
pub open spec fn addon_built(world: World, item: ProductionItem) -> Result<Command, DispatchError> {
    match addon_carrier(item.id) {
        Some(c) => match nearest(world.structures@, addon_hosts(world, c), world.start) {
            Some(s) => Ok(Command::Train { producer: world.structures@[s].tag, item: item.id }),
            None => Err(DispatchError::NoProducer { item: item.id }),
        },
        None => Err(DispatchError::InvalidArgument { item: item.id }),
    }
}

/// The structure built at the placement that the engine found, by the free
/// worker nearest to it.
pub open spec fn structure_built(world: World, structure: u32, placement: Option<Point>) -> Result<
    Command,
    DispatchError,
> {
    match placement {
        Some(at) => built_at(world, structure, at),
        None => Err(DispatchError::NoSuitableLocation { item: structure, near: world.start }),
    }
}

/// The upgrade started at the idle structure of its researcher's type that
/// stands nearest to the start.
pub open spec fn researched(world: World, item: ProductionItem) -> Result<Command, DispatchError> {
    match item.producer {
        Some(p) => match nearest(world.structures@, laboratories(world, p), world.start) {
            Some(s) => Ok(
                Command::Research { producer: world.structures@[s].tag, upgrade: item.id },
            ),
            None => Err(DispatchError::NoResearcher { upgrade: item.id }),
        },
        None => Err(DispatchError::NoResearcher { upgrade: item.id }),
    }
}

/// The order that the item's branch issues, or why it cannot.
pub open spec fn routed(
    item: ProductionItem,
    placement: Option<Point>,
    world: World,
    ids: RaceIds,
    config: DispatchConfig,
) -> Result<Command, DispatchError> {
    match route_of(item, ids) {
        Route::Expansion => expanded(world, ids),
        Route::TownhallUpgrade => hall_upgraded(world, ids, item),
        Route::Gas => gas_built(world, ids, config),
        Route::Train => trained(world, item),
        Route::Addon => addon_built(world, item),
        Route::Structure => structure_built(world, item.id, placement),
        Route::Research => researched(world, item),
    }
}

/// The outcome of dispatching `item` against `ledger`: refused when the ledger
/// does not cover it, then when its requirement is not finished, then for
/// whatever its branch lacks; the branch's order otherwise.
pub open spec fn dispatched(
    item: ProductionItem,
    placement: Option<Point>,
    world: World,
    ids: RaceIds,
    config: DispatchConfig,
    ledger: Ledger,
) -> Result<Command, DispatchError> {
    if !ledger.affords(item.cost, item.takes_supply()) {
        Err(DispatchError::CannotAfford { item: item.id })
    } else if lacks_requirement(item, world) {
        Err(
            DispatchError::UnfulfilledTechRequirement {
                item: item.id,
                requirement: item.requirement->0,
            },
        )
    } else {
        routed(item, placement, world, ids, config)
    }
}

/// The ledger after an attempt to dispatch `item`: debited when an order was issued.
pub open spec fn charged(
    outcome: Result<Command, DispatchError>,
    item: ProductionItem,
    ledger: Ledger,
) -> Ledger {
    if outcome is Ok {
        ledger.debited(item.cost, item.takes_supply())
    } else {
        ledger
    }
}

/// The order of an attempt, if it issued one.
pub open spec fn issued(outcome: Result<Command, DispatchError>) -> Seq<Command> {
    match outcome {
        Ok(order) => seq![order],
        Err(_) => Seq::empty(),
    }
}

/// Picks the branch of the dispatcher for `item`.
pub fn route(item: &ProductionItem, ids: &RaceIds) -> (r: Route)
    ensures
        r == route_of(*item, *ids),
{
    match item.kind {
        ItemKind::Upgrade => Route::Research,
        kind => {
            if item.id == ids.townhall {
                Route::Expansion
            } else if item.id == ids.townhall_upgrade {
                Route::TownhallUpgrade
            } else if item.id == ids.gas {
                Route::Gas
            } else {
                match kind {
                    ItemKind::Unit => Route::Train,
                    ItemKind::Addon => Route::Addon,
                    _ => Route::Structure,
                }
            }
        },
    }
}

/// Describes the placement search for `structure`.
pub fn placement_request(structure: u32, ids: &RaceIds) -> (request: PlacementRequest)
    ensures
        request == placement_for(structure, *ids),
{
    let supply = structure == ids.supply;
    PlacementRequest {
        structure,
        towards_center: if supply {
            2
        } else {
            10
        },
        step: if supply {
            3
        } else {
            4
        },
        addon_room: structure == BARRACKS || structure == FACTORY || structure == STARPORT,
        max_distance: 30,
    }
}

/// Counts the finished units of the alias group `group`.
pub fn count_completed(world: &World, group: u32) -> (n: u128)
    ensures
        n == completed(*world, group),
{
    let mut n: u128 = 0;
    let mut i: usize = 0;
    while i < world.counts.len()
        invariant
            0 <= i <= world.counts@.len(),
            n == completed_among(world.counts@, group, i as int),
            n <= i * 0xFFFF_FFFF,
        decreases world.counts@.len() - i,
    {
        if canonical(world.counts[i].type_id) == group {
            n = n + world.counts[i].complete as u128;
        }
        i = i + 1;
    }
    n
}

fn requirement_missing(item: &ProductionItem, world: &World) -> (missing: bool)
    ensures
        missing == lacks_requirement(*item, *world),
{
    match item.requirement {
        Some(r) => count_completed(world, canonical(r)) == 0,
        None => false,
    }
}

fn free_worker_mask(world: &World) -> (mask: Vec<bool>)
    ensures
        mask@ == free_workers(*world),
{
    let mut mask: Vec<bool> = Vec::new();
    let mut i: usize = 0;
    while i < world.workers.len()
        invariant
            0 <= i <= world.workers@.len(),
            mask@.len() == i,
            forall|j: int| 0 <= j < i ==> mask@[j] == free_workers(*world)[j],
        decreases world.workers@.len() - i,
    {
        let w = &world.workers[i];
        mask.push(w.collecting && !w.constructing && !w.carrying);
        i = i + 1;
    }
    assert(mask@ =~= free_workers(*world));
    mask
}

fn free_site_mask(world: &World) -> (mask: Vec<bool>)
    ensures
        mask@ == free_sites(*world),
{
    let mut mask: Vec<bool> = Vec::new();
    let mut i: usize = 0;
    while i < world.expansions.len()
        invariant
            0 <= i <= world.expansions@.len(),
            mask@.len() == i,
            forall|j: int| 0 <= j < i ==> mask@[j] == free_sites(*world)[j],
        decreases world.expansions@.len() - i,
    {
        mask.push(world.expansions[i].free);
        i = i + 1;
    }
    assert(mask@ =~= free_sites(*world));
    mask
}

fn upgradable_hall_mask(world: &World, ids: &RaceIds) -> (mask: Vec<bool>)
    ensures
        mask@ == upgradable_halls(*world, *ids),
{
    let mut mask: Vec<bool> = Vec::new();
    let mut i: usize = 0;
    while i < world.townhalls.len()
        invariant
            0 <= i <= world.townhalls@.len(),
            mask@.len() == i,
            forall|j: int| 0 <= j < i ==> mask@[j] == upgradable_halls(*world, *ids)[j],
        decreases world.townhalls@.len() - i,
    {
        let t = &world.townhalls[i];
        mask.push(t.type_id == ids.townhall && t.is_idle());
        i = i + 1;
    }
    assert(mask@ =~= upgradable_halls(*world, *ids));
    mask
}

fn near_geyser_mask(world: &World, base: Point, radius: u32) -> (mask: Vec<bool>)
    ensures
        mask@ == geysers_near(*world, base, radius),
{
    let mut mask: Vec<bool> = Vec::new();
    let mut i: usize = 0;
    while i < world.geysers.len()
        invariant
            0 <= i <= world.geysers@.len(),
            mask@.len() == i,
            forall|j: int| 0 <= j < i ==> mask@[j] == geysers_near(*world, base, radius)[j],
        decreases world.geysers@.len() - i,
    {
        let g = &world.geysers[i];
        mask.push(g.free && is_closer(g.pos, base, radius));
        i = i + 1;
    }
    assert(mask@ =~= geysers_near(*world, base, radius));
    mask
}

fn trainer_mask(world: &World, producer: u32) -> (mask: Vec<bool>)
    ensures
        mask@ == trainers(*world, producer),
{
    let mut mask: Vec<bool> = Vec::new();
    let mut i: usize = 0;
    while i < world.structures.len()
        invariant
            0 <= i <= world.structures@.len(),
            mask@.len() == i,
            forall|j: int| 0 <= j < i ==> mask@[j] == trainers(*world, producer)[j],
        decreases world.structures@.len() - i,
    {
        let s = &world.structures[i];
        mask.push(s.type_id == producer && s.ready && s.is_almost_unused());
        i = i + 1;
    }
    assert(mask@ =~= trainers(*world, producer));
    mask
}

fn addon_host_mask(world: &World, carrier: u32) -> (mask: Vec<bool>)
    ensures
        mask@ == addon_hosts(*world, carrier),
{
    let mut mask: Vec<bool> = Vec::new();
    let mut i: usize = 0;
    while i < world.structures.len()
        invariant
            0 <= i <= world.structures@.len(),
            mask@.len() == i,
            forall|j: int| 0 <= j < i ==> mask@[j] == addon_hosts(*world, carrier)[j],
        decreases world.structures@.len() - i,
    {
        let s = &world.structures[i];
        mask.push(s.type_id == carrier && s.is_idle() && s.ready && !s.has_addon);
        i = i + 1;
    }
    assert(mask@ =~= addon_hosts(*world, carrier));
    mask
}

fn laboratory_mask(world: &World, producer: u32) -> (mask: Vec<bool>)
    ensures
        mask@ == laboratories(*world, producer),
{
    let mut mask: Vec<bool> = Vec::new();
    let mut i: usize = 0;
    while i < world.structures.len()
        invariant
            0 <= i <= world.structures@.len(),
            mask@.len() == i,
            forall|j: int| 0 <= j < i ==> mask@[j] == laboratories(*world, producer)[j],
        decreases world.structures@.len() - i,
    {
        let s = &world.structures[i];
        mask.push(s.type_id == producer && s.is_idle() && s.ready);
        i = i + 1;
    }
    assert(mask@ =~= laboratories(*world, producer));
    mask
}

/// Finds the free worker nearest to `at`.
pub fn get_closest_free_worker(world: &World, at: Point) -> (found: Option<usize>)
    ensures
        nearest(world.workers@, free_workers(*world), at) == match found {
            Some(k) => Some(k as int),
            None => None,
        },
        found matches Some(k) ==> k < world.workers@.len(),
{
    let mask = free_worker_mask(world);
    find_nearest(&world.workers, &mask, at)
}

fn build_at(world: &World, structure: u32, at: Point) -> (outcome: Result<Command, DispatchError>)
    ensures
        outcome == built_at(*world, structure, at),
{
    match get_closest_free_worker(world, at) {
        Some(w) => Ok(Command::Build { worker: world.workers[w].tag, structure, at }),
        None => Err(DispatchError::NoSuitableWorker),
    }
}

/// Builds a town hall on the nearest free expansion site.
pub fn build_expansion(world: &World, ids: &RaceIds) -> (outcome: Result<Command, DispatchError>)
    ensures
        outcome == expanded(*world, *ids),
{
    let sites = free_site_mask(world);
    match find_first(&sites) {
        Some(e) => build_at(world, ids.townhall, world.expansions[e].site),
        None => Err(DispatchError::NoSuitableLocation { item: ids.townhall, near: world.start }),
    }
}

/// Upgrades the idle base town hall nearest to the start.
pub fn upgrade_townhall(world: &World, ids: &RaceIds, item: &ProductionItem) -> (outcome: Result<
    Command,
    DispatchError,
>)
    ensures
        outcome == hall_upgraded(*world, *ids, *item),
{
    let halls = upgradable_hall_mask(world, ids);
    match find_nearest(&world.townhalls, &halls, world.start) {
        Some(t) => Ok(Command::Morph { unit: world.townhalls[t].tag, into: item.id }),
        None => Err(DispatchError::NoProducer { item: item.id }),
    }
}

fn find_gas_site(world: &World, radius: u32) -> (found: Option<usize>)
    ensures
        gas_site(*world, radius, world.townhalls@.len() as int) == match found {
            Some(g) => Some(g as int),
            None => None,
        },
        found matches Some(g) ==> g < world.geysers@.len(),
{
    let mut i: usize = 0;
    while i < world.townhalls.len()
        invariant
            0 <= i <= world.townhalls@.len(),
            gas_site(*world, radius, i as int) is None,
        decreases world.townhalls@.len() - i,
    {
        let near = near_geyser_mask(world, world.townhalls[i].pos, radius);
        match find_first(&near) {
            Some(g) => {
                proof {
                    gas_site_stays(*world, radius, i + 1, world.townhalls@.len() as int);
                }
                return Some(g);
            },
            None => {},
        }
        i = i + 1;
    }
    None
}

proof fn gas_site_stays(world: World, radius: u32, n: int, m: int)
    requires
        n <= m,
        gas_site(world, radius, n) is Some,
    ensures
        gas_site(world, radius, m) == gas_site(world, radius, n),
    decreases m - n,
{
    if n < m {
        gas_site_stays(world, radius, n, m - 1);
    }
}

/// Builds a gas structure on the first free geyser near a town hall.
pub fn build_gas_building(world: &World, ids: &RaceIds, config: &DispatchConfig) -> (outcome:
    Result<Command, DispatchError>)
    ensures
        outcome == gas_built(*world, *ids, *config),
{
    match find_gas_site(world, config.gas_radius) {
        Some(g) => match get_closest_free_worker(world, world.geysers[g].pos) {
            Some(w) => Ok(
                Command::BuildGas { worker: world.workers[w].tag, geyser: world.geysers[g].tag },
            ),
            None => Err(DispatchError::NoSuitableWorker),
        },
        None => Err(DispatchError::NoSuitableLocation { item: ids.gas, near: world.start }),
    }
}

/// Queues `item` at the producer with room that stands nearest to the start.
pub fn train_unit(world: &World, item: &ProductionItem) -> (outcome: Result<Command, DispatchError>)
    ensures
        outcome == trained(*world, *item),
{
    match item.producer {
        Some(p) => {
            let mask = trainer_mask(world, p);
            match find_nearest(&world.structures, &mask, world.start) {
                Some(s) => Ok(Command::Train { producer: world.structures[s].tag, item: item.id }),
                None => Err(DispatchError::NoProducer { item: item.id }),
            }
        },
        None => Err(DispatchError::NoProducer { item: item.id }),
    }
}

/// Has the idle carrier without addon nearest to the start build the addon.
pub fn build_addon(world: &World, item: &ProductionItem) -> (outcome: Result<Command, DispatchError>)
    ensures
        outcome == addon_built(*world, *item),
{
    match addon_base(item.id) {
        Some(c) => {
            let mask = addon_host_mask(world, c);
            match find_nearest(&world.structures, &mask, world.start) {
                Some(s) => Ok(Command::Train { producer: world.structures[s].tag, item: item.id }),
                None => Err(DispatchError::NoProducer { item: item.id }),
            }
        },
        None => Err(DispatchError::InvalidArgument { item: item.id }),
    }
}

/// Sends the nearest free worker to build `structure` at the placement the
/// engine found, if it found one.
pub fn build_structure(world: &World, structure: u32, placement: Option<Point>) -> (outcome:
    Result<Command, DispatchError>)
    ensures
        outcome == structure_built(*world, structure, placement),
{
    match placement {
        Some(at) => build_at(world, structure, at),
        None => Err(DispatchError::NoSuitableLocation { item: structure, near: world.start }),
    }
}

/// Starts the upgrade at the idle researcher nearest to the start.
pub fn research(world: &World, item: &ProductionItem) -> (outcome: Result<Command, DispatchError>)
    ensures
        outcome == researched(*world, *item),
{
    match item.producer {
        Some(p) => {
            let mask = laboratory_mask(world, p);
            match find_nearest(&world.structures, &mask, world.start) {
                Some(s) => Ok(
                    Command::Research { producer: world.structures[s].tag, upgrade: item.id },
                ),
                None => Err(DispatchError::NoResearcher { upgrade: item.id }),
            }
        },
        None => Err(DispatchError::NoResearcher { upgrade: item.id }),
    }
}

/// Dispatches `item`: checks the ledger and the item's requirement, issues
/// the order of the item's branch, and debits the ledger. The ledger changes
/// only when an order is issued.
pub fn dispatch(
    item: &ProductionItem,
    placement: Option<Point>,
    world: &World,
    ids: &RaceIds,
    config: &DispatchConfig,
    ledger: &mut Ledger,
) -> (outcome: Result<Command, DispatchError>)
    ensures
        outcome == dispatched(*item, placement, *world, *ids, *config, *old(ledger)),
        outcome is Ok ==> *final(ledger) == old(ledger).debited(item.cost, item.takes_supply()),
        outcome is Err ==> *final(ledger) == *old(ledger),
{
    let with_supply = item.commits_supply();
    if !ledger.can_afford(item.cost, with_supply) {
        return Err(DispatchError::CannotAfford { item: item.id });
    }
    match item.requirement {
        Some(r) => {
            if requirement_missing(item, world) {
                return Err(
                    DispatchError::UnfulfilledTechRequirement { item: item.id, requirement: r },
                );
            }
        },
        None => {},
    }
    let outcome = match route(item, ids) {
        Route::Expansion => build_expansion(world, ids),
        Route::TownhallUpgrade => upgrade_townhall(world, ids, item),
        Route::Gas => build_gas_building(world, ids, config),
        Route::Train => train_unit(world, item),
        Route::Addon => build_addon(world, item),
        Route::Structure => build_structure(world, item.id, placement),
        Route::Research => research(world, item),
    };
    match outcome {
        Ok(order) => {
            let reserved = ledger.reserve(item.cost, with_supply);
            assert(reserved is Ok);
            Ok(order)
        },
        Err(e) => Err(e),
    }
}

/// The upgrade that the cursor points at.
pub fn get_current_research_prio(upgrades: &Vec<ProductionItem>, cursor: usize) -> (next: Option<
    ProductionItem,
>)
    ensures
        next == (if cursor < upgrades@.len() {
            Some(upgrades@[cursor as int])
        } else {
            None
        }),
{
    if cursor < upgrades.len() {
        Some(upgrades[cursor])
    } else {
        None
    }
}

/// Dispatches the upgrade under the cursor. The cursor moves on by one when
/// the research was started and stays where it is otherwise.
pub fn research_next_in_upgrade_order(
    upgrades: &Vec<ProductionItem>,
    cursor: &mut usize,
    world: &World,
    ids: &RaceIds,
    config: &DispatchConfig,
    ledger: &mut Ledger,
) -> (outcome: Result<Command, DispatchError>)
    ensures
        *old(cursor) >= upgrades@.len() ==> outcome == Err::<Command, DispatchError>(
            DispatchError::EndOfList,
        ),
        *old(cursor) < upgrades@.len() ==> outcome == dispatched(
            upgrades@[*old(cursor) as int],
            None,
            *world,
            *ids,
            *config,
            *old(ledger),
        ),
        outcome is Ok ==> *final(cursor) == *old(cursor) + 1 && *final(ledger) == old(
            ledger,
        ).debited(
            upgrades@[*old(cursor) as int].cost,
            upgrades@[*old(cursor) as int].takes_supply(),
        ),
        outcome is Err ==> *final(cursor) == *old(cursor) && *final(ledger) == *old(ledger),
{
    let at = *cursor;
    let count = upgrades.len();
    match get_current_research_prio(upgrades, at) {
        Some(item) => {
            let outcome = dispatch(&item, None, world, ids, config, ledger);
            if outcome.is_ok() {
                assert(at < count);
                *cursor = at + 1;
            }
            outcome
        },
        None => Err(DispatchError::EndOfList),
    }
}

} // verus!
