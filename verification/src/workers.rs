//! The worker allocation engine. Once per tick it fills gas structures that lack
//! harvesters, releases one harvester from every oversaturated structure, and
//! hands the idle pool to town halls that lack harvesters. Nothing is carried
//! over from one tick to the next: current assignments are read off the
//! snapshot.

use crate::geometry::{closer_than, is_closer, Point};
use crate::select::{allowed, find_nearest, nearest, nearest_none_iff};
use crate::world::{Command, Unit, World};
use vstd::prelude::*;

verus! {

/// Tunables of the allocation pass.
#[derive(Clone, Copy, Debug, PartialEq, Eq)]
pub struct HarvestConfig {
    /// A mineral field belongs to a town hall when it is closer than this.
    pub mineral_radius: u32,
}

/// Where a pass stands: who has been given an order, who waits in the idle
/// pool, the orders so far, and for each order the index of its worker.
#[verifier::ext_equal]
pub struct Pass {
    pub busy: Seq<bool>,
    pub pool: Seq<bool>,
    pub orders: Seq<Command>,
    pub picked: Seq<int>,
}

/// Some unit of `units` carries `tag`.
pub open spec fn has_tag(units: Seq<Unit>, tag: u64) -> bool {
    exists|j: int| 0 <= j < units.len() && #[trigger] units[j].tag == tag
}

/// The first order of `w` aims at one of `units`.
pub open spec fn targets_one_of(w: Unit, units: Seq<Unit>) -> bool {
    w.target matches Some(t) && has_tag(units, t)
}

/// The pass before any order. The workers whose tags are in `spared` were
/// given an order earlier in the tick: they count as busy and stay out of the
/// pool. The pool holds the other workers without orders.
pub open spec fn opening(world: World, spared: Seq<u64>) -> Pass {
    Pass {
        busy: Seq::new(world.workers@.len(), |i: int| spared.contains(world.workers@[i].tag)),
        pool: Seq::new(
            world.workers@.len(),
            |i: int| world.workers@[i].idle() && !spared.contains(world.workers@[i].tag),
        ),
        orders: Seq::empty(),
        picked: Seq::empty(),
    }
}

/// The pass after worker `k` was given `order`; `pooled` says whether the
/// worker waits in the idle pool afterwards.
pub open spec fn claim(s: Pass, k: int, order: Command, pooled: bool) -> Pass {
    Pass {
        busy: s.busy.update(k, true),
        pool: s.pool.update(k, pooled),
        orders: s.orders.push(order),
        picked: s.picked.push(k),
    }
}

/// Workers that may be sent to gas: not constructing, not already aimed at a
/// gas structure, not given an order in this pass.
pub open spec fn gas_recruits(world: World, busy: Seq<bool>) -> Seq<bool> {
    Seq::new(
        world.workers@.len(),
        |i: int|
            !world.workers@[i].constructing && !targets_one_of(
                world.workers@[i],
                world.gas_buildings@,
            ) && !allowed(busy, i),
    )
}

/// Workers that may be released from minerals: aimed at a mineral field and
/// not given an order in this pass.
pub open spec fn mineral_leavers(world: World, busy: Seq<bool>) -> Seq<bool> {
    Seq::new(
        world.workers@.len(),
        |i: int|
            targets_one_of(world.workers@[i], world.mineral_fields@) && !allowed(busy, i),
    )
}

/// Workers that may be released from the gas structure `tag`: aimed at it and
/// not given an order in this pass.
pub open spec fn gas_leavers(world: World, busy: Seq<bool>, tag: u64) -> Seq<bool> {
    Seq::new(
        world.workers@.len(),
        |i: int| world.workers@[i].target == Some(tag) && !allowed(busy, i),
    )
}

/// Mineral fields that belong to a town hall standing at `base`.
pub open spec fn fields_of(world: World, base: Point, radius: u32) -> Seq<bool> {
    Seq::new(
        world.mineral_fields@.len(),
        |i: int| closer_than(world.mineral_fields@[i].pos, base, radius),
    )
}

/// Pulls up to `n` workers onto the gas structure `g`, nearest first, and stops
/// early when no worker may be sent.
pub open spec fn fill_one(world: World, g: Unit, s: Pass, n: nat) -> Pass
    decreases n,
{
    if n == 0 {
        s
    } else {
        match nearest(world.workers@, gas_recruits(world, s.busy), g.pos) {
            None => s,
            Some(k) => fill_one(
                world,
                g,
                claim(
                    s,
                    k,
                    Command::Gather { worker: world.workers@[k].tag, resource: g.tag },
                    false,
                ),
                (n - 1) as nat,
            ),
        }
    }
}

/// Fills the first `upto` gas structures in order, each up to its deficit.
pub open spec fn fill_gas(world: World, s: Pass, upto: int) -> Pass
    decreases upto,
{
    if upto <= 0 {
        s
    } else {
        fill_one(
            world,
            world.gas_buildings@[upto - 1],
            fill_gas(world, s, upto - 1),
            world.gas_buildings@[upto - 1].harvester_deficit(),
        )
    }
}

/// Releases the nearest worker let through by `leavers` into the idle pool, if
/// `site` is oversaturated and such a worker exists.
pub open spec fn release_one(world: World, site: Unit, leavers: Seq<bool>, s: Pass) -> Pass {
    if site.oversaturated() {
        match nearest(world.workers@, leavers, site.pos) {
            None => s,
            Some(k) => claim(s, k, Command::Stop { unit: world.workers@[k].tag }, true),
        }
    } else {
        s
    }
}

/// Releases one mineral harvester for each oversaturated town hall among the first `upto`.
pub open spec fn release_townhalls(world: World, s: Pass, upto: int) -> Pass
    decreases upto,
{
    if upto <= 0 {
        s
    } else {
        let before = release_townhalls(world, s, upto - 1);
        release_one(
            world,
            world.townhalls@[upto - 1],
            mineral_leavers(world, before.busy),
            before,
        )
    }
}

/// Releases one of its own harvesters for each oversaturated gas structure among the first `upto`.
pub open spec fn release_gas(world: World, s: Pass, upto: int) -> Pass
    decreases upto,
{
    if upto <= 0 {
        s
    } else {
        let before = release_gas(world, s, upto - 1);
        release_one(
            world,
            world.gas_buildings@[upto - 1],
            gas_leavers(world, before.busy, world.gas_buildings@[upto - 1].tag),
            before,
        )
    }
}

/// Hands up to `n` workers of the idle pool to the town hall `t`, nearest
/// first. Each goes to the field of `t` nearest to the worker. Stops early when
/// the pool is empty or `t` has no field.
pub open spec fn staff_one(world: World, t: Unit, radius: u32, s: Pass, n: nat) -> Pass
    decreases n,
{
    if n == 0 {
        s
    } else {
        match nearest(world.workers@, s.pool, t.pos) {
            None => s,
            Some(k) => match nearest(
                world.mineral_fields@,
                fields_of(world, t.pos, radius),
                world.workers@[k].pos,
            ) {
                None => s,
                Some(m) => staff_one(
                    world,
                    t,
                    radius,
                    claim(
                        s,
                        k,
                        Command::Gather {
                            worker: world.workers@[k].tag,
                            resource: world.mineral_fields@[m].tag,
                        },
                        false,
                    ),
                    (n - 1) as nat,
                ),
            },
        }
    }
}

/// Staffs the first `upto` town halls in order, each up to its deficit.
pub open spec fn staff(world: World, radius: u32, s: Pass, upto: int) -> Pass
    decreases upto,
{
    if upto <= 0 {
        s
    } else {
        staff_one(
            world,
            world.townhalls@[upto - 1],
            radius,
            staff(world, radius, s, upto - 1),
            world.townhalls@[upto - 1].harvester_deficit(),
        )
    }
}

/// The whole pass: fill gas, release from oversaturated town halls, release
/// from oversaturated gas structures, staff town halls from the idle pool.
pub open spec fn plan(world: World, config: HarvestConfig, spared: Seq<u64>) -> Pass {
    let filled = fill_gas(world, opening(world, spared), world.gas_buildings@.len() as int);
    let thinned = release_townhalls(world, filled, world.townhalls@.len() as int);
    let released = release_gas(world, thinned, world.gas_buildings@.len() as int);
    staff(world, config.mineral_radius, released, world.townhalls@.len() as int)
}

/// A pass that fits `world`: one flag per worker, one picked worker per order,
/// each order addressed to the worker picked for it, no worker who was told
/// to gather is told so twice nor left in the idle pool, and the spared
/// workers are busy, outside the pool and without an order.
pub open spec fn consistent(world: World, spared: Seq<u64>, s: Pass) -> bool {
    &&& s.busy.len() == world.workers@.len()
    &&& forall|k: int|
        0 <= k < world.workers@.len() && spared.contains(#[trigger] world.workers@[k].tag)
            ==> s.busy[k] && !s.pool[k]
    &&& forall|i: int|
        0 <= i < s.orders.len() ==> !spared.contains(
            world.workers@[#[trigger] s.picked[i]].tag,
        )
    &&& s.pool.len() == world.workers@.len()
    &&& s.picked.len() == s.orders.len()
    &&& forall|i: int|
        0 <= i < s.orders.len() ==> 0 <= #[trigger] s.picked[i] < world.workers@.len()
    &&& forall|i: int|
        0 <= i < s.orders.len() ==> addressee(#[trigger] s.orders[i]) == Some(
            world.workers@[s.picked[i]].tag,
        )
    &&& forall|i: int|
        0 <= i < s.orders.len() && #[trigger] s.orders[i] is Gather ==> s.busy[s.picked[i]]
            && !s.pool[s.picked[i]]
    &&& forall|i: int, j: int|
        0 <= i < j < s.orders.len() && #[trigger] s.orders[i] is Gather
            && #[trigger] s.orders[j] is Gather ==> s.picked[i] != s.picked[j]
}

/// The worker an allocation order is addressed to.
pub open spec fn addressee(order: Command) -> Option<u64> {
    match order {
        Command::Gather { worker, .. } => Some(worker),
        Command::Stop { unit } => Some(unit),
        _ => None,
    }
}

/// `longer` continues `shorter`: it starts with the same orders.
pub open spec fn extends(longer: Pass, shorter: Pass) -> bool {
    &&& shorter.orders.len() <= longer.orders.len()
    &&& forall|i: int|
        0 <= i < shorter.orders.len() ==> #[trigger] longer.orders[i] == shorter.orders[i]
            && longer.picked[i] == shorter.picked[i]
}

/// `longer` continues `shorter`, and every order it adds is one that `kind` accepts.
pub open spec fn adds_only(longer: Pass, shorter: Pass, kind: spec_fn(Command) -> bool) -> bool {
    &&& extends(longer, shorter)
    &&& forall|i: int|
        shorter.orders.len() <= i < longer.orders.len() ==> kind(#[trigger] longer.orders[i])
}

/// The orders that send a worker to gather at `tag`.
pub open spec fn trips_to(tag: u64) -> spec_fn(Command) -> bool {
    |c: Command| c matches Command::Gather { resource, .. } && resource == tag
}

/// The orders that send a worker to gather at a mineral field.
pub open spec fn field_trips(world: World) -> spec_fn(Command) -> bool {
    |c: Command|
        c matches Command::Gather { resource, .. } && has_tag(world.mineral_fields@, resource)
}

/// The orders that stop a unit.
pub open spec fn stops() -> spec_fn(Command) -> bool {
    |c: Command| c is Stop
}

/// How many of the first `n` orders send a worker to gather at `tag`.
pub open spec fn pulled_to(orders: Seq<Command>, tag: u64, n: int) -> nat
    decreases n,
{
    if n <= 0 {
        0
    } else {
        pulled_to(orders, tag, n - 1) + if trips_to(tag)(orders[n - 1]) {
            1nat
        } else {
            0nat
        }
    }
}

/// The tags of the snapshot tell its resources apart: no two gas structures
/// share a tag, and no mineral field carries the tag of a gas structure.
pub open spec fn resources_are_told_apart(world: World) -> bool {
    &&& forall|a: int, b: int|
        0 <= a < b < world.gas_buildings@.len() ==> #[trigger] world.gas_buildings@[a].tag
            != #[trigger] world.gas_buildings@[b].tag
    &&& forall|m: int, g: int|
        0 <= m < world.mineral_fields@.len() && 0 <= g < world.gas_buildings@.len()
            ==> #[trigger] world.mineral_fields@[m].tag != #[trigger] world.gas_buildings@[g].tag
}

proof fn adds_only_is_transitive(a: Pass, b: Pass, c: Pass, kind: spec_fn(Command) -> bool)
    requires
        adds_only(a, b, kind),
        adds_only(b, c, kind),
    ensures
        adds_only(a, c, kind),
{
    extends_is_transitive(a, b, c);
    assert forall|i: int| c.orders.len() <= i < a.orders.len() implies kind(
        #[trigger] a.orders[i],
    ) by {
        if i < b.orders.len() {
            assert(a.orders[i] == b.orders[i]);
        }
    }
}

proof fn pulled_of_equal_prefixes(one: Seq<Command>, other: Seq<Command>, tag: u64, n: int)
    requires
        forall|i: int| 0 <= i < n ==> one[i] == other[i],
    ensures
        pulled_to(one, tag, n) == pulled_to(other, tag, n),
    decreases n,
{
    if n > 0 {
        pulled_of_equal_prefixes(one, other, tag, n - 1);
    }
}

/// Orders that do not go to `tag` leave its count as it was.
proof fn pulled_is_unchanged(longer: Pass, shorter: Pass, tag: u64, upto: int)
    requires
        extends(longer, shorter),
        shorter.orders.len() <= upto <= longer.orders.len(),
        forall|i: int|
            shorter.orders.len() <= i < longer.orders.len() ==> !trips_to(tag)(
                #[trigger] longer.orders[i],
            ),
    ensures
        pulled_to(longer.orders, tag, upto) == pulled_to(
            shorter.orders,
            tag,
            shorter.orders.len() as int,
        ),
    decreases upto,
{
    if upto == shorter.orders.len() {
        pulled_of_equal_prefixes(longer.orders, shorter.orders, tag, upto);
    } else {
        pulled_is_unchanged(longer, shorter, tag, upto - 1);
        assert(!trips_to(tag)(longer.orders[upto - 1]));
    }
}

/// Every added order raises the count of `tag` by one at most.
proof fn pulled_grows_slowly(longer: Pass, shorter: Pass, tag: u64, upto: int)
    requires
        extends(longer, shorter),
        shorter.orders.len() <= upto <= longer.orders.len(),
    ensures
        pulled_to(longer.orders, tag, upto) <= pulled_to(
            shorter.orders,
            tag,
            shorter.orders.len() as int,
        ) + (upto - shorter.orders.len()),
    decreases upto,
{
    if upto == shorter.orders.len() {
        pulled_of_equal_prefixes(longer.orders, shorter.orders, tag, upto);
    } else {
        pulled_grows_slowly(longer, shorter, tag, upto - 1);
    }
}

proof fn claim_keeps_consistent(
    world: World,
    spared: Seq<u64>,
    s: Pass,
    k: int,
    order: Command,
    pooled: bool,
)
    requires
        consistent(world, spared, s),
        0 <= k < world.workers@.len(),
        addressee(order) == Some(world.workers@[k].tag),
        order is Gather ==> !pooled,
        !s.busy[k] || s.pool[k],
    ensures
        consistent(world, spared, claim(s, k, order, pooled)),
        extends(claim(s, k, order, pooled), s),
{
    let t = claim(s, k, order, pooled);
    let n = s.orders.len() as int;
    assert forall|i: int| 0 <= i < n && s.orders[i] is Gather implies s.picked[i] != k by {
        assert(s.busy[s.picked[i]] && !s.pool[s.picked[i]]);
    }
    assert forall|i: int|
        0 <= i < t.orders.len() && #[trigger] t.orders[i] is Gather implies t.busy[t.picked[i]]
        && !t.pool[t.picked[i]] by {
        if i < n {
            assert(s.orders[i] is Gather);
            assert(s.picked[i] != k);
        }
    }
    assert forall|i: int, j: int|
        0 <= i < j < t.orders.len() && #[trigger] t.orders[i] is Gather
            && #[trigger] t.orders[j] is Gather implies t.picked[i] != t.picked[j] by {
        assert(s.orders[i] is Gather);
        if j < n {
            assert(s.orders[j] is Gather);
        }
    }
}

proof fn extends_is_transitive(a: Pass, b: Pass, c: Pass)
    requires
        extends(a, b),
        extends(b, c),
    ensures
        extends(a, c),
{
    assert forall|i: int| 0 <= i < c.orders.len() implies #[trigger] a.orders[i] == c.orders[i]
        && a.picked[i] == c.picked[i] by {
        assert(b.orders[i] == c.orders[i]);
        assert(a.orders[i] == b.orders[i]);
    }
}

proof fn opening_is_consistent(world: World, spared: Seq<u64>)
    ensures
        consistent(world, spared, opening(world, spared)),
{
}

proof fn fill_one_keeps_consistent(world: World, spared: Seq<u64>, g: Unit, s: Pass, n: nat)
    requires
        consistent(world, spared, s),
    ensures
        consistent(world, spared, fill_one(world, g, s, n)),
        extends(fill_one(world, g, s, n), s),
        fill_one(world, g, s, n).orders.len() <= s.orders.len() + n,
        forall|i: int|
            s.orders.len() <= i < fill_one(world, g, s, n).orders.len() ==> #[trigger] fill_one(
                world,
                g,
                s,
                n,
            ).orders[i] == (Command::Gather {
                worker: world.workers@[fill_one(world, g, s, n).picked[i]].tag,
                resource: g.tag,
            }),
    decreases n,
{
    if n > 0 {
        let mask = gas_recruits(world, s.busy);
        nearest_none_iff(world.workers@, mask, g.pos);
        match nearest(world.workers@, mask, g.pos) {
            None => {},
            Some(k) => {
                assert(allowed(mask, k));
                assert(mask[k]);
                let order = Command::Gather { worker: world.workers@[k].tag, resource: g.tag };
                let t = claim(s, k, order, false);
                claim_keeps_consistent(world, spared, s, k, order, false);
                fill_one_keeps_consistent(world, spared, g, t, (n - 1) as nat);
                let r = fill_one(world, g, t, (n - 1) as nat);
                extends_is_transitive(r, t, s);
                assert(r.orders[s.orders.len() as int] == t.orders[s.orders.len() as int]);
            },
        }
    }
}

proof fn fill_gas_keeps_consistent(world: World, spared: Seq<u64>, s: Pass, upto: int)
    requires
        consistent(world, spared, s),
        upto <= world.gas_buildings@.len(),
    ensures
        consistent(world, spared, fill_gas(world, s, upto)),
        extends(fill_gas(world, s, upto), s),
    decreases upto,
{
    if upto > 0 {
        fill_gas_keeps_consistent(world, spared, s, upto - 1);
        let before = fill_gas(world, s, upto - 1);
        let g = world.gas_buildings@[upto - 1];
        fill_one_keeps_consistent(world, spared, g, before, g.harvester_deficit());
        extends_is_transitive(fill_gas(world, s, upto), before, s);
    }
}

proof fn release_one_keeps_consistent(
    world: World,
    spared: Seq<u64>,
    site: Unit,
    leavers: Seq<bool>,
    s: Pass,
)
    requires
        consistent(world, spared, s),
        forall|i: int| allowed(leavers, i) ==> 0 <= i < s.busy.len() && !s.busy[i],
    ensures
        consistent(world, spared, release_one(world, site, leavers, s)),
        extends(release_one(world, site, leavers, s), s),
        adds_only(release_one(world, site, leavers, s), s, stops()),
{
    if site.oversaturated() {
        nearest_none_iff(world.workers@, leavers, site.pos);
        match nearest(world.workers@, leavers, site.pos) {
            None => {},
            Some(k) => {
                assert(allowed(leavers, k));
                claim_keeps_consistent(
                    world,
                    spared,
                    s,
                    k,
                    Command::Stop { unit: world.workers@[k].tag },
                    true,
                );
            },
        }
    }
}

proof fn release_townhalls_keeps_consistent(world: World, spared: Seq<u64>, s: Pass, upto: int)
    requires
        consistent(world, spared, s),
        upto <= world.townhalls@.len(),
    ensures
        consistent(world, spared, release_townhalls(world, s, upto)),
        extends(release_townhalls(world, s, upto), s),
        adds_only(release_townhalls(world, s, upto), s, stops()),
    decreases upto,
{
    if upto > 0 {
        release_townhalls_keeps_consistent(world, spared, s, upto - 1);
        let before = release_townhalls(world, s, upto - 1);
        release_one_keeps_consistent(
            world,
            spared,
            world.townhalls@[upto - 1],
            mineral_leavers(world, before.busy),
            before,
        );
        adds_only_is_transitive(release_townhalls(world, s, upto), before, s, stops());
    }
}

proof fn release_gas_keeps_consistent(world: World, spared: Seq<u64>, s: Pass, upto: int)
    requires
        consistent(world, spared, s),
        upto <= world.gas_buildings@.len(),
    ensures
        consistent(world, spared, release_gas(world, s, upto)),
        extends(release_gas(world, s, upto), s),
        adds_only(release_gas(world, s, upto), s, stops()),
    decreases upto,
{
    if upto > 0 {
        release_gas_keeps_consistent(world, spared, s, upto - 1);
        let before = release_gas(world, s, upto - 1);
        release_one_keeps_consistent(
            world,
            spared,
            world.gas_buildings@[upto - 1],
            gas_leavers(world, before.busy, world.gas_buildings@[upto - 1].tag),
            before,
        );
        adds_only_is_transitive(release_gas(world, s, upto), before, s, stops());
    }
}

proof fn staff_one_keeps_consistent(
    world: World,
    spared: Seq<u64>,
    t: Unit,
    radius: u32,
    s: Pass,
    n: nat,
)
    requires
        consistent(world, spared, s),
    ensures
        consistent(world, spared, staff_one(world, t, radius, s, n)),
        extends(staff_one(world, t, radius, s, n), s),
        adds_only(staff_one(world, t, radius, s, n), s, field_trips(world)),
        staff_one(world, t, radius, s, n).orders.len() <= s.orders.len() + n,
    decreases n,
{
    if n > 0 {
        nearest_none_iff(world.workers@, s.pool, t.pos);
        match nearest(world.workers@, s.pool, t.pos) {
            None => {},
            Some(k) => {
                assert(allowed(s.pool, k));
                let fields = fields_of(world, t.pos, radius);
                nearest_none_iff(world.mineral_fields@, fields, world.workers@[k].pos);
                match nearest(world.mineral_fields@, fields, world.workers@[k].pos) {
                    None => {},
                    Some(m) => {
                        let order = Command::Gather {
                            worker: world.workers@[k].tag,
                            resource: world.mineral_fields@[m].tag,
                        };
                        let next = claim(s, k, order, false);
                        claim_keeps_consistent(world, spared, s, k, order, false);
                        staff_one_keeps_consistent(world, spared, t, radius, next, (n - 1) as nat);
                        assert(field_trips(world)(order));
                        assert(adds_only(next, s, field_trips(world)));
                        adds_only_is_transitive(
                            staff_one(world, t, radius, next, (n - 1) as nat),
                            next,
                            s,
                            field_trips(world),
                        );
                    },
                }
            },
        }
    }
}

proof fn staff_keeps_consistent(world: World, spared: Seq<u64>, radius: u32, s: Pass, upto: int)
    requires
        consistent(world, spared, s),
        upto <= world.townhalls@.len(),
    ensures
        consistent(world, spared, staff(world, radius, s, upto)),
        extends(staff(world, radius, s, upto), s),
        adds_only(staff(world, radius, s, upto), s, field_trips(world)),
    decreases upto,
{
    if upto > 0 {
        staff_keeps_consistent(world, spared, radius, s, upto - 1);
        let before = staff(world, radius, s, upto - 1);
        let t = world.townhalls@[upto - 1];
        staff_one_keeps_consistent(world, spared, t, radius, before, t.harvester_deficit());
        adds_only_is_transitive(staff(world, radius, s, upto), before, s, field_trips(world));
    }
}

/// In one pass no worker is told to gather twice: any two gather orders of the
/// pass were given to different workers of the snapshot, and every order is
/// addressed to the worker picked for it.
pub proof fn no_worker_gathers_twice(world: World, config: HarvestConfig, spared: Seq<u64>)
    ensures
        consistent(world, spared, plan(world, config, spared)),
        forall|i: int, j: int|
            0 <= i < j < plan(world, config, spared).orders.len() && #[trigger] plan(
                world,
                config,
                spared,
            ).orders[i] is Gather && #[trigger] plan(world, config, spared).orders[j] is Gather
                ==> plan(world, config, spared).picked[i] != plan(world, config, spared).picked[j],
{
    let gases = world.gas_buildings@.len() as int;
    let halls = world.townhalls@.len() as int;
    opening_is_consistent(world, spared);
    fill_gas_keeps_consistent(world, spared, opening(world, spared), gases);
    let filled = fill_gas(world, opening(world, spared), gases);
    release_townhalls_keeps_consistent(world, spared, filled, halls);
    let thinned = release_townhalls(world, filled, halls);
    release_gas_keeps_consistent(world, spared, thinned, gases);
    let released = release_gas(world, thinned, gases);
    staff_keeps_consistent(world, spared, config.mineral_radius, released, halls);
}

/// A worker that was spared gets no order from the pass.
pub proof fn spared_workers_are_left_alone(world: World, config: HarvestConfig, spared: Seq<u64>)
    ensures
        forall|i: int|
            0 <= i < plan(world, config, spared).orders.len() ==> {
                &&& addressee(#[trigger] plan(world, config, spared).orders[i]) matches Some(tag)
                &&& !spared.contains(tag)
            },
{
    no_worker_gathers_twice(world, config, spared);
    let p = plan(world, config, spared);
    assert forall|i: int| 0 <= i < p.orders.len() implies {
        &&& addressee(#[trigger] p.orders[i]) matches Some(tag)
        &&& !spared.contains(tag)
    } by {
        assert(!spared.contains(world.workers@[p.picked[i]].tag));
    }
}

/// Where the workers of the snapshot carry pairwise different tags, no tag
/// occurs in two gather orders of one pass.
pub proof fn no_tag_gathers_twice(world: World, config: HarvestConfig, spared: Seq<u64>)
    requires
        forall|a: int, b: int|
            0 <= a < b < world.workers@.len() ==> #[trigger] world.workers@[a].tag
                != #[trigger] world.workers@[b].tag,
    ensures
        forall|i: int, j: int|
            0 <= i < j < plan(world, config, spared).orders.len() && #[trigger] plan(
                world,
                config,
                spared,
            ).orders[i] is Gather && #[trigger] plan(world, config, spared).orders[j] is Gather
                ==> addressee(plan(world, config, spared).orders[i]) != addressee(
                plan(world, config, spared).orders[j],
            ),
{
    no_worker_gathers_twice(world, config, spared);
    let p = plan(world, config, spared);
    assert forall|i: int, j: int|
        0 <= i < j < p.orders.len() && #[trigger] p.orders[i] is Gather
            && #[trigger] p.orders[j] is Gather implies addressee(p.orders[i]) != addressee(
        p.orders[j],
    ) by {
        let a = p.picked[i];
        let b = p.picked[j];
        assert(a != b);
        assert(addressee(p.orders[i]) == Some(world.workers@[a].tag));
        assert(addressee(p.orders[j]) == Some(world.workers@[b].tag));
        if a < b {
            assert(world.workers@[a].tag != world.workers@[b].tag);
        } else {
            assert(world.workers@[b].tag != world.workers@[a].tag);
        }
    }
}

/// A gas structure never receives more workers in one pass than it lacks: the
/// orders that filling the structure at `index` adds are at most its deficit,
/// and each of them sends a worker to that structure.
pub proof fn gas_pull_is_bounded(world: World, spared: Seq<u64>, index: int)
    requires
        0 <= index < world.gas_buildings@.len(),
    ensures
        ({
            let before = fill_gas(world, opening(world, spared), index);
            let after = fill_gas(world, opening(world, spared), index + 1);
            let g = world.gas_buildings@[index];
            &&& extends(after, before)
            &&& after.orders.len() - before.orders.len() <= g.harvester_deficit()
            &&& forall|i: int|
                before.orders.len() <= i < after.orders.len() ==> #[trigger] after.orders[i] == (
                Command::Gather { worker: world.workers@[after.picked[i]].tag, resource: g.tag })
        }),
{
    opening_is_consistent(world, spared);
    fill_gas_keeps_consistent(world, spared, opening(world, spared), index);
    let before = fill_gas(world, opening(world, spared), index);
    let g = world.gas_buildings@[index];
    fill_one_keeps_consistent(world, spared, g, before, g.harvester_deficit());
}

proof fn filling_counts(world: World, spared: Seq<u64>, index: int, upto: int)
    requires
        resources_are_told_apart(world),
        0 <= index < world.gas_buildings@.len(),
        0 <= upto <= world.gas_buildings@.len(),
    ensures
        consistent(world, spared, fill_gas(world, opening(world, spared), upto)),
        pulled_to(
            fill_gas(world, opening(world, spared), upto).orders,
            world.gas_buildings@[index].tag,
            fill_gas(world, opening(world, spared), upto).orders.len() as int,
        ) <= if upto > index {
            world.gas_buildings@[index].harvester_deficit()
        } else {
            0
        },
    decreases upto,
{
    let tag = world.gas_buildings@[index].tag;
    opening_is_consistent(world, spared);
    if upto > 0 {
        filling_counts(world, spared, index, upto - 1);
        let before = fill_gas(world, opening(world, spared), upto - 1);
        let g = world.gas_buildings@[upto - 1];
        let after = fill_one(world, g, before, g.harvester_deficit());
        fill_one_keeps_consistent(world, spared, g, before, g.harvester_deficit());
        if upto - 1 == index {
            pulled_grows_slowly(after, before, tag, after.orders.len() as int);
        } else {
            assert(g.tag != tag) by {
                if upto - 1 < index {
                    assert(world.gas_buildings@[upto - 1].tag != world.gas_buildings@[index].tag);
                } else {
                    assert(world.gas_buildings@[index].tag != world.gas_buildings@[upto - 1].tag);
                }
            }
            pulled_is_unchanged(after, before, tag, after.orders.len() as int);
        }
    }
}

/// In one pass a gas structure is sent no more workers than it lacks: where
/// the tags of the snapshot tell its resources apart, the orders of the whole
/// pass that send a worker to the structure at `index` are at most its
/// deficit.
pub proof fn gas_is_never_overfilled(
    world: World,
    config: HarvestConfig,
    spared: Seq<u64>,
    index: int,
)
    requires
        resources_are_told_apart(world),
        0 <= index < world.gas_buildings@.len(),
    ensures
        pulled_to(
            plan(world, config, spared).orders,
            world.gas_buildings@[index].tag,
            plan(world, config, spared).orders.len() as int,
        ) <= world.gas_buildings@[index].harvester_deficit(),
{
    let gases = world.gas_buildings@.len() as int;
    let halls = world.townhalls@.len() as int;
    let tag = world.gas_buildings@[index].tag;
    filling_counts(world, spared, index, gases);
    let filled = fill_gas(world, opening(world, spared), gases);
    release_townhalls_keeps_consistent(world, spared, filled, halls);
    let thinned = release_townhalls(world, filled, halls);
    pulled_is_unchanged(thinned, filled, tag, thinned.orders.len() as int);
    release_gas_keeps_consistent(world, spared, thinned, gases);
    let released = release_gas(world, thinned, gases);
    pulled_is_unchanged(released, thinned, tag, released.orders.len() as int);
    staff_keeps_consistent(world, spared, config.mineral_radius, released, halls);
    let staffed = staff(world, config.mineral_radius, released, halls);
    assert forall|i: int| released.orders.len() <= i < staffed.orders.len() implies !trips_to(
        tag,
    )(#[trigger] staffed.orders[i]) by {
        assert(field_trips(world)(staffed.orders[i]));
        if trips_to(tag)(staffed.orders[i]) {
            let m = choose|m: int|
                0 <= m < world.mineral_fields@.len() && #[trigger] world.mineral_fields@[m].tag
                    == tag;
            assert(world.mineral_fields@[m].tag != world.gas_buildings@[index].tag);
        }
    }
    pulled_is_unchanged(staffed, released, tag, staffed.orders.len() as int);
}

/// The running state of a pass.
struct Roster {
    busy: Vec<bool>,
    pool: Vec<bool>,
    orders: Vec<Command>,
    picked: Ghost<Seq<int>>,
}

impl View for Roster {
    type V = Pass;

    closed spec fn view(&self) -> Pass {
        Pass { busy: self.busy@, pool: self.pool@, orders: self.orders@, picked: self.picked@ }
    }
}

/// Tells whether some unit of `units` carries `tag`.
pub fn carries_tag(units: &Vec<Unit>, tag: u64) -> (found: bool)
    ensures
        found == has_tag(units@, tag),
{
    let mut i: usize = 0;
    while i < units.len()
        invariant
            0 <= i <= units.len(),
            forall|j: int| 0 <= j < i ==> #[trigger] units@[j].tag != tag,
        decreases units.len() - i,
    {
        if units[i].tag == tag {
            return true;
        }
        i = i + 1;
    }
    false
}

/// Tells whether `tag` is among `tags`.
pub fn holds_tag(tags: &Vec<u64>, tag: u64) -> (found: bool)
    ensures
        found == tags@.contains(tag),
{
    let mut i: usize = 0;
    while i < tags.len()
        invariant
            0 <= i <= tags@.len(),
            forall|j: int| 0 <= j < i ==> tags@[j] != tag,
        decreases tags@.len() - i,
    {
        if tags[i] == tag {
            return true;
        }
        i = i + 1;
    }
    false
}

fn aims_at_one_of(w: &Unit, units: &Vec<Unit>) -> (b: bool)
    ensures
        b == targets_one_of(*w, units@),
{
    match w.target {
        Some(t) => carries_tag(units, t),
        None => false,
    }
}

fn gas_recruit_mask(world: &World, busy: &Vec<bool>) -> (mask: Vec<bool>)
    requires
        busy@.len() == world.workers@.len(),
    ensures
        mask@ == gas_recruits(*world, busy@),
{
    let mut mask: Vec<bool> = Vec::new();
    let mut i: usize = 0;
    while i < world.workers.len()
        invariant
            0 <= i <= world.workers@.len(),
            busy@.len() == world.workers@.len(),
            mask@.len() == i,
            forall|j: int| 0 <= j < i ==> mask@[j] == gas_recruits(*world, busy@)[j],
        decreases world.workers@.len() - i,
    {
        let w = &world.workers[i];
        let ok = !w.constructing && !aims_at_one_of(w, &world.gas_buildings) && !busy[i];
        mask.push(ok);
        i = i + 1;
    }
    assert(mask@ =~= gas_recruits(*world, busy@));
    mask
}

fn mineral_leaver_mask(world: &World, busy: &Vec<bool>) -> (mask: Vec<bool>)
    requires
        busy@.len() == world.workers@.len(),
    ensures
        mask@ == mineral_leavers(*world, busy@),
{
    let mut mask: Vec<bool> = Vec::new();
    let mut i: usize = 0;
    while i < world.workers.len()
        invariant
            0 <= i <= world.workers@.len(),
            busy@.len() == world.workers@.len(),
            mask@.len() == i,
            forall|j: int| 0 <= j < i ==> mask@[j] == mineral_leavers(*world, busy@)[j],
        decreases world.workers@.len() - i,
    {
        let w = &world.workers[i];
        let ok = aims_at_one_of(w, &world.mineral_fields) && !busy[i];
        mask.push(ok);
        i = i + 1;
    }
    assert(mask@ =~= mineral_leavers(*world, busy@));
    mask
}

fn gas_leaver_mask(world: &World, busy: &Vec<bool>, tag: u64) -> (mask: Vec<bool>)
    requires
        busy@.len() == world.workers@.len(),
    ensures
        mask@ == gas_leavers(*world, busy@, tag),
{
    let mut mask: Vec<bool> = Vec::new();
    let mut i: usize = 0;
    while i < world.workers.len()
        invariant
            0 <= i <= world.workers@.len(),
            busy@.len() == world.workers@.len(),
            mask@.len() == i,
            forall|j: int| 0 <= j < i ==> mask@[j] == gas_leavers(*world, busy@, tag)[j],
        decreases world.workers@.len() - i,
    {
        let aimed = match world.workers[i].target {
            Some(t) => t == tag,
            None => false,
        };
        mask.push(aimed && !busy[i]);
        i = i + 1;
    }
    assert(mask@ =~= gas_leavers(*world, busy@, tag));
    mask
}

fn field_mask(world: &World, base: Point, radius: u32) -> (mask: Vec<bool>)
    ensures
        mask@ == fields_of(*world, base, radius),
{
    let mut mask: Vec<bool> = Vec::new();
    let mut i: usize = 0;
    while i < world.mineral_fields.len()
        invariant
            0 <= i <= world.mineral_fields@.len(),
            mask@.len() == i,
            forall|j: int| 0 <= j < i ==> mask@[j] == fields_of(*world, base, radius)[j],
        decreases world.mineral_fields@.len() - i,
    {
        mask.push(is_closer(world.mineral_fields[i].pos, base, radius));
        i = i + 1;
    }
    assert(mask@ =~= fields_of(*world, base, radius));
    mask
}

impl Roster {
    spec fn fits(&self, world: World) -> bool {
        self.busy@.len() == world.workers@.len() && self.pool@.len() == world.workers@.len()
    }

    fn open(world: &World, spared: &Vec<u64>) -> (roster: Roster)
        ensures
            roster@ == opening(*world, spared@),
            roster.fits(*world),
    {
        let mut busy: Vec<bool> = Vec::new();
        let mut pool: Vec<bool> = Vec::new();
        let mut i: usize = 0;
        while i < world.workers.len()
            invariant
                0 <= i <= world.workers@.len(),
                busy@.len() == i,
                pool@.len() == i,
                forall|j: int| 0 <= j < i ==> busy@[j] == spared@.contains(world.workers@[j].tag),
                forall|j: int|
                    0 <= j < i ==> pool@[j] == (world.workers@[j].idle() && !spared@.contains(
                        world.workers@[j].tag,
                    )),
            decreases world.workers@.len() - i,
        {
            let kept = holds_tag(spared, world.workers[i].tag);
            busy.push(kept);
            pool.push(world.workers[i].is_idle() && !kept);
            i = i + 1;
        }
        let roster = Roster { busy, pool, orders: Vec::new(), picked: Ghost(Seq::empty()) };
        assert(roster@ =~= opening(*world, spared@));
        roster
    }

    fn claim(&mut self, k: usize, order: Command, pooled: bool, Ghost(world): Ghost<World>)
        requires
            old(self).fits(world),
            k < world.workers@.len(),
        ensures
            final(self)@ == claim(old(self)@, k as int, order, pooled),
            final(self).fits(world),
    {
        self.busy.set(k, true);
        self.pool.set(k, pooled);
        self.orders.push(order);
        self.picked = Ghost(self.picked@.push(k as int));
    }

    fn fill(&mut self, world: &World, g: &Unit)
        requires
            old(self).fits(*world),
        ensures
            final(self)@ == fill_one(*world, *g, old(self)@, g.harvester_deficit()),
            final(self).fits(*world),
    {
        let wanted = g.deficit();
        let mut left: u32 = wanted;
        while left > 0
            invariant
                self.fits(*world),
                fill_one(*world, *g, self@, left as nat) == fill_one(
                    *world,
                    *g,
                    old(self)@,
                    wanted as nat,
                ),
            decreases left,
        {
            let mask = gas_recruit_mask(world, &self.busy);
            match find_nearest(&world.workers, &mask, g.pos) {
                None => {
                    assert(fill_one(*world, *g, self@, left as nat) == self@);
                    assert(fill_one(*world, *g, self@, 0) == self@);
                    left = 0;
                },
                Some(k) => {
                    let order = Command::Gather { worker: world.workers[k].tag, resource: g.tag };
                    self.claim(k, order, false, Ghost(*world));
                    left = left - 1;
                },
            }
        }
    }

    fn release(&mut self, world: &World, site: &Unit, leavers: &Vec<bool>)
        requires
            old(self).fits(*world),
        ensures
            final(self)@ == release_one(*world, *site, leavers@, old(self)@),
            final(self).fits(*world),
    {
        if site.is_oversaturated() {
            match find_nearest(&world.workers, leavers, site.pos) {
                None => {},
                Some(k) => {
                    self.claim(k, Command::Stop { unit: world.workers[k].tag }, true, Ghost(*world));
                },
            }
        }
    }

    fn staff(&mut self, world: &World, t: &Unit, radius: u32)
        requires
            old(self).fits(*world),
        ensures
            final(self)@ == staff_one(*world, *t, radius, old(self)@, t.harvester_deficit()),
            final(self).fits(*world),
    {
        let wanted = t.deficit();
        let fields = field_mask(world, t.pos, radius);
        let mut left: u32 = wanted;
        while left > 0
            invariant
                self.fits(*world),
                fields@ == fields_of(*world, t.pos, radius),
                staff_one(*world, *t, radius, self@, left as nat) == staff_one(
                    *world,
                    *t,
                    radius,
                    old(self)@,
                    wanted as nat,
                ),
            decreases left,
        {
            let mut assigned = false;
            match find_nearest(&world.workers, &self.pool, t.pos) {
                None => {},
                Some(k) => {
                    match find_nearest(&world.mineral_fields, &fields, world.workers[k].pos) {
                        None => {},
                        Some(m) => {
                            let order = Command::Gather {
                                worker: world.workers[k].tag,
                                resource: world.mineral_fields[m].tag,
                            };
                            self.claim(k, order, false, Ghost(*world));
                            assigned = true;
                        },
                    }
                },
            }
            if assigned {
                left = left - 1;
            } else {
                assert(staff_one(*world, *t, radius, self@, left as nat) == self@);
                assert(staff_one(*world, *t, radius, self@, 0) == self@);
                left = 0;
            }
        }
    }
}

/// Runs the allocation pass on `world` and returns its orders in the order in
/// which they were decided.
pub fn rebalance(world: &World, config: &HarvestConfig) -> (orders: Vec<Command>)
    ensures
        orders@ == plan(*world, *config, Seq::empty()).orders,
{
    let nobody: Vec<u64> = Vec::new();
    assert(nobody@ =~= Seq::<u64>::empty());
    rebalance_sparing(world, config, &nobody)
}

/// Runs the allocation pass on `world`, leaving alone the workers whose tags
/// are in `spared`: those that were sent to build earlier in the tick.
pub fn rebalance_sparing(world: &World, config: &HarvestConfig, spared: &Vec<u64>) -> (orders: Vec<
    Command,
>)
    ensures
        orders@ == plan(*world, *config, spared@).orders,
{
    let mut roster = Roster::open(world, spared);
    let mut i: usize = 0;
    while i < world.gas_buildings.len()
        invariant
            0 <= i <= world.gas_buildings@.len(),
            roster.fits(*world),
            roster@ == fill_gas(*world, opening(*world, spared@), i as int),
        decreases world.gas_buildings@.len() - i,
    {
        roster.fill(world, &world.gas_buildings[i]);
        i = i + 1;
    }
    let ghost filled = roster@;
    i = 0;
    while i < world.townhalls.len()
        invariant
            0 <= i <= world.townhalls@.len(),
            roster.fits(*world),
            roster@ == release_townhalls(*world, filled, i as int),
        decreases world.townhalls@.len() - i,
    {
        let leavers = mineral_leaver_mask(world, &roster.busy);
        roster.release(world, &world.townhalls[i], &leavers);
        i = i + 1;
    }
    let ghost thinned = roster@;
    i = 0;
    while i < world.gas_buildings.len()
        invariant
            0 <= i <= world.gas_buildings@.len(),
            roster.fits(*world),
            roster@ == release_gas(*world, thinned, i as int),
        decreases world.gas_buildings@.len() - i,
    {
        let leavers = gas_leaver_mask(world, &roster.busy, world.gas_buildings[i].tag);
        roster.release(world, &world.gas_buildings[i], &leavers);
        i = i + 1;
    }
    let ghost released = roster@;
    i = 0;
    while i < world.townhalls.len()
        invariant
            0 <= i <= world.townhalls@.len(),
            roster.fits(*world),
            roster@ == staff(*world, config.mineral_radius, released, i as int),
        decreases world.townhalls@.len() - i,
    {
        roster.staff(world, &world.townhalls[i], config.mineral_radius);
        i = i + 1;
    }
    roster.orders
}

} // verus!
