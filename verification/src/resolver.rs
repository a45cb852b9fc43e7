//! The production priority resolver. From an ordered list of items and the
//! counts of the snapshot it derives, from scratch at every call, the one item
//! to pursue now: the item just before the first position of the list whose
//! prerequisites are not all in place.

use crate::ids::{canonical, group_of};
use crate::items::{ItemKind, ProductionItem};
use crate::tally::{entries, tally_get, tally_insert, tally_new, Tally};
use crate::world::{TypeCount, World};
use vstd::prelude::*;

verus! {

/// The kinds of item whose shortfall does not hold a list back.
#[derive(Clone, Copy, Debug, PartialEq, Eq)]
pub struct Leniency {
    pub structures: bool,
    pub units: bool,
    pub addons: bool,
    pub upgrades: bool,
}

/// Tunables of the resolver: when the strict order of the list is relaxed,
/// and for which kinds of item.
#[derive(Clone, Copy, Debug, PartialEq, Eq)]
pub struct ResolverConfig {
    /// Game loop from which on the list is relaxed: the time by which the
    /// list is expected to be through.
    pub relax_from: u32,
    /// The kinds that stop holding the list back from then on. The others
    /// hold it back at any time.
    pub relax: Leniency,
}

impl Leniency {
    /// Every kind holds the list back.
    pub open spec fn strict() -> Leniency {
        Leniency { structures: false, units: false, addons: false, upgrades: false }
    }

    /// Mobile units stop holding the list back, nothing else does.
    pub open spec fn for_units() -> Leniency {
        Leniency { structures: false, units: true, addons: false, upgrades: false }
    }

    /// Whether a shortfall of items of `kind` is let pass.
    pub open spec fn covers(self, kind: ItemKind) -> bool {
        match kind {
            ItemKind::Structure => self.structures,
            ItemKind::Unit => self.units,
            ItemKind::Addon => self.addons,
            ItemKind::Upgrade => self.upgrades,
        }
    }

    /// Lets no shortfall pass.
    pub fn none() -> (leniency: Leniency)
        ensures
            leniency == Leniency::strict(),
    {
        Leniency { structures: false, units: false, addons: false, upgrades: false }
    }

    /// Lets a shortfall of mobile units pass.
    pub fn units_only() -> (leniency: Leniency)
        ensures
            leniency == Leniency::for_units(),
    {
        Leniency { structures: false, units: true, addons: false, upgrades: false }
    }
}

impl ResolverConfig {
    /// The leniency in force at `game_loop`: none before the list is relaxed,
    /// the configured one from then on.
    pub open spec fn leniency_at(self, game_loop: u32) -> Leniency {
        if game_loop >= self.relax_from {
            self.relax
        } else {
            Leniency::strict()
        }
    }

    /// Reads off the leniency in force at `game_loop`.
    pub fn leniency(&self, game_loop: u32) -> (relaxed: Leniency)
        ensures
            relaxed == self.leniency_at(game_loop),
    {
        if game_loop >= self.relax_from {
            self.relax
        } else {
            Leniency::none()
        }
    }
}

/// How many of the alias group `group` the first `n` entries of `counts`
/// report as finished, ordered or under construction.
pub open spec fn counted(counts: Seq<TypeCount>, group: u32, n: int) -> int
    decreases n,
{
    if n <= 0 {
        0
    } else {
        counted(counts, group, n - 1) + if group_of(counts[n - 1].type_id) == group {
            counts[n - 1].complete + counts[n - 1].ordered
        } else {
            0
        }
    }
}

/// How many of the alias group `group` the agent owns, ordered ones included.
pub open spec fn owned(world: World, group: u32) -> int {
    counted(world.counts@, group, world.counts@.len() as int)
}

/// How many of the first `i` items of `list` belong to the alias group `group`.
pub open spec fn occurrences(list: Seq<ProductionItem>, i: int, group: u32) -> nat
    decreases i,
{
    if i <= 0 {
        0
    } else {
        occurrences(list, i - 1, group) + if group_of(list[i - 1].id) == group {
            1nat
        } else {
            0nat
        }
    }
}

/// How many of `group` must be owned before position `i` of `list` is
/// reached: one for each earlier item of the group, and one more for the group
/// of `seed`, the structure every match starts with.
pub open spec fn required(list: Seq<ProductionItem>, i: int, seed: u32, group: u32) -> nat {
    occurrences(list, i, group) + if group == group_of(seed) {
        1nat
    } else {
        0nat
    }
}

/// Whether a shortfall of `item` holds the list back: it does unless the
/// leniency in force covers the item's kind.
pub open spec fn gates(item: ProductionItem, relaxed: Leniency) -> bool {
    !relaxed.covers(item.kind)
}

/// Fewer of `group` are owned than position `i` requires.
pub open spec fn unmet(
    list: Seq<ProductionItem>,
    i: int,
    seed: u32,
    world: World,
    group: u32,
) -> bool {
    owned(world, group) < required(list, i, seed, group)
}

/// Position `i` cannot be reached: the starting structure is missing, or an
/// earlier item that gates is owned fewer times than the list has asked for
/// its group so far.
pub open spec fn blocked(
    list: Seq<ProductionItem>,
    i: int,
    seed: u32,
    world: World,
    relaxed: Leniency,
) -> bool {
    ||| unmet(list, i, seed, world, group_of(seed))
    ||| exists|j: int|
        0 <= j < i && gates(#[trigger] list[j], relaxed) && unmet(
            list,
            i,
            seed,
            world,
            group_of(list[j].id),
        )
}

/// `b` is the smallest blocked position, the position past the end included.
pub open spec fn is_first_blocked(
    list: Seq<ProductionItem>,
    seed: u32,
    world: World,
    relaxed: Leniency,
    b: int,
) -> bool {
    &&& 0 <= b <= list.len()
    &&& blocked(list, b, seed, world, relaxed)
    &&& forall|i: int| 0 <= i < b ==> !blocked(list, i, seed, world, relaxed)
}

/// No position is blocked, the position past the end included.
pub open spec fn exhausted(
    list: Seq<ProductionItem>,
    seed: u32,
    world: World,
    relaxed: Leniency,
) -> bool {
    forall|i: int| 0 <= i <= list.len() ==> !blocked(list, i, seed, world, relaxed)
}

/// The item to pursue: the one just before the smallest blocked position.
/// `None` where nothing is blocked, the list being exhausted, and where the
/// very first position is blocked, the starting structure being gone.
pub open spec fn resolution(
    list: Seq<ProductionItem>,
    seed: u32,
    world: World,
    relaxed: Leniency,
) -> Option<ProductionItem> {
    if exists|b: int| is_first_blocked(list, seed, world, relaxed, b) {
        let b = choose|b: int| is_first_blocked(list, seed, world, relaxed, b);
        if b == 0 {
            None
        } else {
            Some(list[b - 1])
        }
    } else {
        None
    }
}

/// At most one position is the smallest blocked one.
pub proof fn first_blocked_is_unique(
    list: Seq<ProductionItem>,
    seed: u32,
    world: World,
    relaxed: Leniency,
    a: int,
    b: int,
)
    requires
        is_first_blocked(list, seed, world, relaxed, a),
        is_first_blocked(list, seed, world, relaxed, b),
    ensures
        a == b,
{
}

/// Where position `n` is blocked, some position up to `n` is the smallest blocked one.
pub proof fn blocked_has_first(
    list: Seq<ProductionItem>,
    seed: u32,
    world: World,
    relaxed: Leniency,
    n: int,
) -> (b: int)
    requires
        0 <= n <= list.len(),
        blocked(list, n, seed, world, relaxed),
    ensures
        is_first_blocked(list, seed, world, relaxed, b),
        b <= n,
    decreases n,
{
    if exists|i: int| 0 <= i < n && blocked(list, i, seed, world, relaxed) {
        let i = choose|i: int| 0 <= i < n && blocked(list, i, seed, world, relaxed);
        blocked_has_first(list, seed, world, relaxed, i)
    } else {
        n
    }
}

/// The resolution of a list whose smallest blocked position is `b`.
pub proof fn resolution_at(
    list: Seq<ProductionItem>,
    seed: u32,
    world: World,
    relaxed: Leniency,
    b: int,
)
    requires
        is_first_blocked(list, seed, world, relaxed, b),
    ensures
        resolution(list, seed, world, relaxed) == if b == 0 {
            None
        } else {
            Some(list[b - 1])
        },
{
    let c = choose|c: int| is_first_blocked(list, seed, world, relaxed, c);
    first_blocked_is_unique(list, seed, world, relaxed, b, c);
}

/// The resolution of a list none of whose positions is blocked.
pub proof fn resolution_of_exhausted(
    list: Seq<ProductionItem>,
    seed: u32,
    world: World,
    relaxed: Leniency,
)
    requires
        exhausted(list, seed, world, relaxed),
    ensures
        resolution(list, seed, world, relaxed) is None,
{
}

/// An alias group of which nothing is required never holds the list back.
pub proof fn nothing_required_is_never_unmet(
    list: Seq<ProductionItem>,
    i: int,
    seed: u32,
    world: World,
    group: u32,
)
    requires
        required(list, i, seed, group) == 0,
    ensures
        !unmet(list, i, seed, world, group),
{
    counted_is_bounded(world.counts@, group, world.counts@.len() as int);
}

proof fn counted_is_bounded(counts: Seq<TypeCount>, group: u32, n: int)
    requires
        0 <= n <= counts.len(),
    ensures
        0 <= counted(counts, group, n) <= n * 0x2_0000_0000,
    decreases n,
{
    if n > 0 {
        counted_is_bounded(counts, group, n - 1);
    }
}

proof fn occurrences_are_bounded(list: Seq<ProductionItem>, i: int, group: u32)
    requires
        0 <= i,
    ensures
        occurrences(list, i, group) <= i,
    decreases i,
{
    if i > 0 {
        occurrences_are_bounded(list, i - 1, group);
    }
}

proof fn occurrences_grow(list: Seq<ProductionItem>, a: int, b: int, group: u32)
    requires
        a <= b,
    ensures
        occurrences(list, a, group) <= occurrences(list, b, group),
    decreases b - a,
{
    if a < b {
        occurrences_grow(list, a, b - 1, group);
    }
}

proof fn occurrences_of_equal_prefixes(
    one: Seq<ProductionItem>,
    other: Seq<ProductionItem>,
    i: int,
    group: u32,
)
    requires
        forall|j: int| 0 <= j < i ==> one[j] == other[j],
    ensures
        occurrences(one, i, group) == occurrences(other, i, group),
    decreases i,
{
    if i > 0 {
        occurrences_of_equal_prefixes(one, other, i - 1, group);
    }
}

proof fn occurrences_after_insert(
    list: Seq<ProductionItem>,
    k: int,
    x: ProductionItem,
    i: int,
    group: u32,
)
    requires
        0 <= k <= list.len(),
        k < i <= list.len() + 1,
    ensures
        occurrences(list.insert(k, x), i, group) == occurrences(list, i - 1, group) + if group_of(
            x.id,
        ) == group {
            1nat
        } else {
            0nat
        },
    decreases i,
{
    list.insert_ensures(k, x);
    let longer = list.insert(k, x);
    if i == k + 1 {
        occurrences_of_equal_prefixes(longer, list, k, group);
    } else {
        occurrences_after_insert(list, k, x, i - 1, group);
        assert(longer[(i - 2) + 1] == list[i - 2]);
    }
}

/// How many of the owned counts fall into `group`.
pub fn count_group(world: &World, group: u32) -> (n: u128)
    ensures
        n == owned(*world, group),
{
    let mut n: u128 = 0;
    let mut i: usize = 0;
    while i < world.counts.len()
        invariant
            0 <= i <= world.counts@.len(),
            n == counted(world.counts@, group, i as int),
            n <= i * 0x2_0000_0000,
        decreases world.counts@.len() - i,
    {
        let entry = &world.counts[i];
        if canonical(entry.type_id) == group {
            n = n + entry.complete as u128 + entry.ordered as u128;
        }
        i = i + 1;
    }
    n
}

/// Tells whether a shortfall of `item` holds the list back.
pub fn is_gating(item: &ProductionItem, relaxed: Leniency) -> (b: bool)
    ensures
        b == gates(*item, relaxed),
{
    match item.kind {
        ItemKind::Structure => !relaxed.structures,
        ItemKind::Unit => !relaxed.units,
        ItemKind::Addon => !relaxed.addons,
        ItemKind::Upgrade => !relaxed.upgrades,
    }
}

/// The tally holds, for every alias group, what position `i` requires of it,
/// and nothing for a group of which nothing is required.
spec fn tally_matches(
    held: Map<u32, u128>,
    list: Seq<ProductionItem>,
    i: int,
    seed: u32,
) -> bool {
    forall|g: u32|
        #![trigger required(list, i, seed, g)]
        {
            &&& required(list, i, seed, g) > 0 ==> held.dom().contains(g) && held[g] == required(
                list,
                i,
                seed,
                g,
            )
            &&& required(list, i, seed, g) == 0 ==> !held.dom().contains(g)
        }
}

fn falls_short(
    world: &World,
    tally: &Tally,
    group: u32,
    Ghost(list): Ghost<Seq<ProductionItem>>,
    Ghost(i): Ghost<int>,
    Ghost(seed): Ghost<u32>,
) -> (short: bool)
    requires
        tally_matches(entries(*tally), list, i, seed),
    ensures
        short == unmet(list, i, seed, *world, group),
{
    proof {
        counted_is_bounded(world.counts@, group, world.counts@.len() as int);
    }
    match tally_get(tally, group) {
        Some(need) => count_group(world, group) < need,
        None => false,
    }
}

fn position_blocked(
    list: &Vec<ProductionItem>,
    i: usize,
    tally: &Tally,
    world: &World,
    relaxed: Leniency,
    seed: u32,
) -> (stuck: bool)
    requires
        i <= list@.len(),
        tally_matches(entries(*tally), list@, i as int, seed),
    ensures
        stuck == blocked(list@, i as int, seed, *world, relaxed),
{
    if falls_short(world, tally, canonical(seed), Ghost(list@), Ghost(i as int), Ghost(seed)) {
        return true;
    }
    let mut j: usize = 0;
    while j < i
        invariant
            0 <= j <= i <= list@.len(),
            tally_matches(entries(*tally), list@, i as int, seed),
            !unmet(list@, i as int, seed, *world, group_of(seed)),
            forall|k: int|
                0 <= k < j ==> !(gates(#[trigger] list@[k], relaxed) && unmet(
                    list@,
                    i as int,
                    seed,
                    *world,
                    group_of(list@[k].id),
                )),
        decreases i - j,
    {
        if is_gating(&list[j], relaxed) && falls_short(
            world,
            tally,
            canonical(list[j].id),
            Ghost(list@),
            Ghost(i as int),
            Ghost(seed),
        ) {
            return true;
        }
        j = j + 1;
    }
    false
}

/// Resolves the item to pursue in this tick. The group of `seed` seeds the
/// requirements, and the kinds that `config` relaxes stop holding the list
/// back once the game loop has reached `config.relax_from`.
pub fn resolve(
    list: &Vec<ProductionItem>,
    world: &World,
    seed: u32,
    config: &ResolverConfig,
) -> (next: Option<ProductionItem>)
    ensures
        next == resolution(list@, seed, *world, config.leniency_at(world.game_loop)),
{
    let relaxed = config.leniency(world.game_loop);
    let mut tally = tally_new();
    assert(entries(tally) =~= Map::<u32, u128>::empty());
    tally_insert(&mut tally, canonical(seed), 1);
    let mut i: usize = 0;
    let mut candidate: Option<ProductionItem> = None;
    loop
        invariant
            0 <= i <= list@.len(),
            relaxed == config.leniency_at(world.game_loop),
            tally_matches(entries(tally), list@, i as int, seed),
            forall|k: int| 0 <= k < i ==> !blocked(list@, k, seed, *world, relaxed),
            candidate == (if i == 0 {
                None
            } else {
                Some(list@[i - 1])
            }),
        decreases list@.len() - i,
    {
        if position_blocked(list, i, &tally, world, relaxed, seed) {
            proof {
                resolution_at(list@, seed, *world, relaxed, i as int);
            }
            return candidate;
        }
        if i == list.len() {
            proof {
                resolution_of_exhausted(list@, seed, *world, relaxed);
            }
            return None;
        }
        let group = canonical(list[i].id);
        let so_far: u128 = match tally_get(&tally, group) {
            Some(n) => n,
            None => 0,
        };
        proof {
            occurrences_are_bounded(list@, i as int, group);
            assert(so_far == required(list@, i as int, seed, group));
        }
        let ghost before = entries(tally);
        tally_insert(&mut tally, group, so_far + 1);
        proof {
            assert forall|g: u32| #![trigger required(list@, i + 1, seed, g)]
                {
                    &&& required(list@, i + 1, seed, g) > 0 ==> entries(tally).dom().contains(g)
                        && entries(tally)[g] == required(list@, i + 1, seed, g)
                    &&& required(list@, i + 1, seed, g) == 0 ==> !entries(tally).dom().contains(
                        g,
                    )
                } by {
                assert(required(list@, i as int, seed, g) >= 0);
            }
        }
        candidate = Some(list[i]);
        i = i + 1;
    }
}

/// The position of `list` that position `p` of `list.insert(k, x)` stands for.
spec fn before_insert(k: int, p: int) -> int {
    if p <= k {
        p
    } else {
        p - 1
    }
}

proof fn never_short_of_satisfied(
    list: Seq<ProductionItem>,
    k: int,
    x: ProductionItem,
    seed: u32,
    world: World,
    p: int,
)
    requires
        0 <= k <= list.len(),
        0 <= p <= list.len() + 1,
        owned(world, group_of(x.id)) >= required(
            list.insert(k, x),
            list.len() as int + 1,
            seed,
            group_of(x.id),
        ),
    ensures
        !unmet(list.insert(k, x), p, seed, world, group_of(x.id)),
        p <= list.len() ==> !unmet(list, p, seed, world, group_of(x.id)),
{
    let gx = group_of(x.id);
    let full = list.len() as int + 1;
    occurrences_grow(list.insert(k, x), p, full, gx);
    occurrences_after_insert(list, k, x, full, gx);
    if p <= list.len() {
        occurrences_grow(list, p, list.len() as int, gx);
    }
}

proof fn unmet_after_insert(
    list: Seq<ProductionItem>,
    k: int,
    x: ProductionItem,
    seed: u32,
    world: World,
    p: int,
    g: u32,
)
    requires
        0 <= k <= list.len(),
        0 <= p <= list.len() + 1,
        g != group_of(x.id),
    ensures
        unmet(list.insert(k, x), p, seed, world, g) == unmet(
            list,
            before_insert(k, p),
            seed,
            world,
            g,
        ),
{
    list.insert_ensures(k, x);
    if p <= k {
        occurrences_of_equal_prefixes(list.insert(k, x), list, p, g);
    } else {
        occurrences_after_insert(list, k, x, p, g);
    }
}

proof fn blocked_after_insert(
    list: Seq<ProductionItem>,
    k: int,
    x: ProductionItem,
    seed: u32,
    world: World,
    relaxed: Leniency,
    p: int,
)
    requires
        0 <= k <= list.len(),
        0 <= p <= list.len() + 1,
        owned(world, group_of(x.id)) >= required(
            list.insert(k, x),
            list.len() as int + 1,
            seed,
            group_of(x.id),
        ),
    ensures
        blocked(list.insert(k, x), p, seed, world, relaxed) == blocked(
            list,
            before_insert(k, p),
            seed,
            world,
            relaxed,
        ),
{
    list.insert_ensures(k, x);
    let longer = list.insert(k, x);
    let gx = group_of(x.id);
    let i = before_insert(k, p);
    never_short_of_satisfied(list, k, x, seed, world, p);
    never_short_of_satisfied(list, k, x, seed, world, i);
    if group_of(seed) != gx {
        unmet_after_insert(list, k, x, seed, world, p, group_of(seed));
    }
    if blocked(list, i, seed, world, relaxed) && !unmet(list, i, seed, world, group_of(seed)) {
        let j = choose|j: int|
            0 <= j < i && gates(#[trigger] list[j], relaxed) && unmet(
                list,
                i,
                seed,
                world,
                group_of(list[j].id),
            );
        let moved = if j < k {
            j
        } else {
            j + 1
        };
        assert(longer[moved] == list[j]);
        unmet_after_insert(list, k, x, seed, world, p, group_of(list[j].id));
        assert(gates(longer[moved], relaxed) && unmet(
            longer,
            p,
            seed,
            world,
            group_of(longer[moved].id),
        ));
    }
    if blocked(longer, p, seed, world, relaxed) && !unmet(longer, p, seed, world, group_of(seed)) {
        let j = choose|j: int|
            0 <= j < p && gates(#[trigger] longer[j], relaxed) && unmet(
                longer,
                p,
                seed,
                world,
                group_of(longer[j].id),
            );
        assert(j != k);
        let back = if j < k {
            j
        } else {
            j - 1
        };
        assert(longer[j] == list[back]) by {
            if j > k {
                assert(longer[(j - 1) + 1] == list[j - 1]);
            }
        }
        unmet_after_insert(list, k, x, seed, world, p, group_of(list[back].id));
        assert(gates(list[back], relaxed) && unmet(
            list,
            i,
            seed,
            world,
            group_of(list[back].id),
        ));
    }
}

proof fn first_blocked_after_insert(
    list: Seq<ProductionItem>,
    k: int,
    x: ProductionItem,
    seed: u32,
    world: World,
    relaxed: Leniency,
    b: int,
)
    requires
        0 <= k <= list.len(),
        is_first_blocked(list, seed, world, relaxed, b),
        owned(world, group_of(x.id)) >= required(
            list.insert(k, x),
            list.len() as int + 1,
            seed,
            group_of(x.id),
        ),
    ensures
        is_first_blocked(list.insert(k, x), seed, world, relaxed, if b <= k {
            b
        } else {
            b + 1
        }),
{
    list.insert_ensures(k, x);
    let longer = list.insert(k, x);
    let moved = if b <= k {
        b
    } else {
        b + 1
    };
    blocked_after_insert(list, k, x, seed, world, relaxed, moved);
    assert forall|p: int| 0 <= p < moved implies !blocked(longer, p, seed, world, relaxed) by {
        blocked_after_insert(list, k, x, seed, world, relaxed, p);
    }
}

proof fn exhausted_after_insert(
    list: Seq<ProductionItem>,
    k: int,
    x: ProductionItem,
    seed: u32,
    world: World,
    relaxed: Leniency,
)
    requires
        0 <= k <= list.len(),
        exhausted(list, seed, world, relaxed),
        owned(world, group_of(x.id)) >= required(
            list.insert(k, x),
            list.len() as int + 1,
            seed,
            group_of(x.id),
        ),
    ensures
        exhausted(list.insert(k, x), seed, world, relaxed),
{
    list.insert_ensures(k, x);
    let longer = list.insert(k, x);
    assert forall|p: int| 0 <= p <= longer.len() implies !blocked(
        longer,
        p,
        seed,
        world,
        relaxed,
    ) by {
        blocked_after_insert(list, k, x, seed, world, relaxed, p);
    }
}

/// Adding an item whose alias group is already owned as often as the longer
/// list asks for it changes nothing: wherever it is inserted, the resolver
/// names the same item as before.
pub proof fn satisfied_item_changes_nothing(
    list: Seq<ProductionItem>,
    k: int,
    x: ProductionItem,
    seed: u32,
    world: World,
    relaxed: Leniency,
)
    requires
        0 <= k <= list.len(),
        owned(world, group_of(x.id)) >= required(
            list.insert(k, x),
            list.len() as int + 1,
            seed,
            group_of(x.id),
        ),
    ensures
        resolution(list.insert(k, x), seed, world, relaxed) == resolution(
            list,
            seed,
            world,
            relaxed,
        ),
{
    list.insert_ensures(k, x);
    let longer = list.insert(k, x);
    if exhausted(list, seed, world, relaxed) {
        exhausted_after_insert(list, k, x, seed, world, relaxed);
        resolution_of_exhausted(longer, seed, world, relaxed);
        resolution_of_exhausted(list, seed, world, relaxed);
    } else {
        let i = choose|i: int| 0 <= i <= list.len() && blocked(list, i, seed, world, relaxed);
        let b = blocked_has_first(list, seed, world, relaxed, i);
        first_blocked_after_insert(list, k, x, seed, world, relaxed, b);
        resolution_at(list, seed, world, relaxed, b);
        resolution_at(longer, seed, world, relaxed, if b <= k {
            b
        } else {
            b + 1
        });
        if b > k {
            assert(longer[(b - 1) + 1] == list[b - 1]);
        }
    }
}

} // verus!
