//! Picking the nearest unit among those a mask lets through.

use crate::geometry::{dist_sq, distance_squared, Point};
use crate::world::Unit;
use vstd::prelude::*;

verus! {

/// Whether `mask` lets position `i` through. Positions past the end of the mask
/// are not let through.
pub open spec fn allowed(mask: Seq<bool>, i: int) -> bool {
    0 <= i < mask.len() && mask[i]
}

/// `k` is the first of the allowed units that no allowed unit is closer to
/// `target` than.
pub open spec fn is_nearest(units: Seq<Unit>, mask: Seq<bool>, target: Point, k: int) -> bool {
    &&& 0 <= k < units.len()
    &&& allowed(mask, k)
    &&& forall|i: int|
        0 <= i < units.len() && allowed(mask, i) ==> dist_sq(units[k].pos, target) <= dist_sq(
            #[trigger] units[i].pos,
            target,
        )
    &&& forall|i: int|
        0 <= i < k && allowed(mask, i) ==> dist_sq(units[k].pos, target) < dist_sq(
            #[trigger] units[i].pos,
            target,
        )
}

/// No unit is allowed.
pub open spec fn none_allowed(units: Seq<Unit>, mask: Seq<bool>) -> bool {
    forall|i: int| 0 <= i < units.len() ==> !#[trigger] allowed(mask, i)
}

/// Index of the allowed unit nearest to `target`, the first one among equals;
/// `None` where no unit is allowed.
pub open spec fn nearest(units: Seq<Unit>, mask: Seq<bool>, target: Point) -> Option<int> {
    if exists|k: int| is_nearest(units, mask, target, k) {
        Some(choose|k: int| is_nearest(units, mask, target, k))
    } else {
        None
    }
}

/// At most one index is the nearest.
pub proof fn nearest_is_unique(units: Seq<Unit>, mask: Seq<bool>, target: Point, a: int, b: int)
    requires
        is_nearest(units, mask, target, a),
        is_nearest(units, mask, target, b),
    ensures
        a == b,
{
    if a < b {
        assert(dist_sq(units[b].pos, target) < dist_sq(units[a].pos, target));
        assert(dist_sq(units[a].pos, target) <= dist_sq(units[b].pos, target));
    } else if b < a {
        assert(dist_sq(units[a].pos, target) < dist_sq(units[b].pos, target));
        assert(dist_sq(units[b].pos, target) <= dist_sq(units[a].pos, target));
    }
}

/// Where some index is the nearest, [`nearest`] names it.
pub proof fn nearest_is(units: Seq<Unit>, mask: Seq<bool>, target: Point, k: int)
    requires
        is_nearest(units, mask, target, k),
    ensures
        nearest(units, mask, target) == Some(k),
{
    let c = choose|c: int| is_nearest(units, mask, target, c);
    nearest_is_unique(units, mask, target, c, k);
}

/// Where a unit is allowed, some unit is the nearest, and it is an allowed one.
pub proof fn nearest_exists(units: Seq<Unit>, mask: Seq<bool>, target: Point, n: int) -> (k: int)
    requires
        0 <= n <= units.len(),
        exists|i: int| 0 <= i < n && allowed(mask, i),
    ensures
        is_nearest(units.take(n), mask, target, k),
        0 <= k < n,
    decreases n,
{
    let prefix = units.take(n);
    if exists|i: int| 0 <= i < n - 1 && allowed(mask, i) {
        let k0 = nearest_exists(units, mask, target, n - 1);
        let shorter = units.take(n - 1);
        assert(forall|i: int| 0 <= i < n - 1 ==> shorter[i] == prefix[i]);
        if allowed(mask, n - 1) && dist_sq(units[n - 1].pos, target) < dist_sq(
            units[k0].pos,
            target,
        ) {
            assert forall|i: int| 0 <= i < prefix.len() && allowed(mask, i) implies dist_sq(
                prefix[n - 1].pos,
                target,
            ) <= dist_sq(#[trigger] prefix[i].pos, target) by {
                if i < n - 1 {
                    assert(dist_sq(shorter[k0].pos, target) <= dist_sq(shorter[i].pos, target));
                }
            }
            assert forall|i: int| 0 <= i < n - 1 && allowed(mask, i) implies dist_sq(
                prefix[n - 1].pos,
                target,
            ) < dist_sq(#[trigger] prefix[i].pos, target) by {
                assert(dist_sq(shorter[k0].pos, target) <= dist_sq(shorter[i].pos, target));
            }
            n - 1
        } else {
            assert forall|i: int| 0 <= i < prefix.len() && allowed(mask, i) implies dist_sq(
                prefix[k0].pos,
                target,
            ) <= dist_sq(#[trigger] prefix[i].pos, target) by {
                if i < n - 1 {
                    assert(dist_sq(shorter[k0].pos, target) <= dist_sq(shorter[i].pos, target));
                }
            }
            assert forall|i: int| 0 <= i < k0 && allowed(mask, i) implies dist_sq(
                prefix[k0].pos,
                target,
            ) < dist_sq(#[trigger] prefix[i].pos, target) by {
                assert(dist_sq(shorter[k0].pos, target) < dist_sq(shorter[i].pos, target));
            }
            k0
        }
    } else {
        assert(allowed(mask, n - 1));
        n - 1
    }
}

/// [`nearest`] is `None` exactly where no unit is allowed, and otherwise names
/// an allowed unit.
pub proof fn nearest_none_iff(units: Seq<Unit>, mask: Seq<bool>, target: Point)
    ensures
        nearest(units, mask, target) is None <==> none_allowed(units, mask),
        nearest(units, mask, target) matches Some(k) ==> is_nearest(units, mask, target, k),
{
    if exists|i: int| 0 <= i < units.len() && allowed(mask, i) {
        let k = nearest_exists(units, mask, target, units.len() as int);
        assert(units.take(units.len() as int) =~= units);
        let i = choose|i: int| 0 <= i < units.len() && allowed(mask, i);
        assert(allowed(mask, i));
    } else {
        if exists|k: int| is_nearest(units, mask, target, k) {
            let k = choose|k: int| is_nearest(units, mask, target, k);
            assert(allowed(mask, k));
        }
    }
}

/// Finds the allowed unit nearest to `target`; among equally near ones, the
/// first in the list.
pub fn find_nearest(units: &Vec<Unit>, mask: &Vec<bool>, target: Point) -> (found: Option<usize>)
    ensures
        found matches Some(k) ==> is_nearest(units@, mask@, target, k as int),
        found is None ==> none_allowed(units@, mask@),
        nearest(units@, mask@, target) == match found {
            Some(k) => Some(k as int),
            None => None,
        },
{
    let mut best: Option<usize> = None;
    let mut best_dist: u128 = 0;
    let mut i: usize = 0;
    while i < units.len()
        invariant
            0 <= i <= units.len(),
            best matches Some(k) ==> k < i && is_nearest(units@.take(i as int), mask@, target, k as int)
                && best_dist == dist_sq(units@[k as int].pos, target),
            best is None ==> forall|j: int| 0 <= j < i ==> !#[trigger] allowed(mask@, j),
        decreases units.len() - i,
    {
        let ghost before = units@.take(i as int);
        let ghost after = units@.take(i + 1);
        assert(forall|j: int| 0 <= j < i ==> before[j] == after[j]);
        if i < mask.len() && mask[i] {
            let d = distance_squared(units[i].pos, target);
            match best {
                None => {
                    best = Some(i);
                    best_dist = d;
                    assert(is_nearest(after, mask@, target, i as int));
                },
                Some(k) => {
                    if d < best_dist {
                        assert forall|j: int|
                            0 <= j < after.len() && allowed(mask@, j) implies dist_sq(
                            after[i as int].pos,
                            target,
                        ) <= dist_sq(#[trigger] after[j].pos, target) by {
                            if j < i {
                                assert(dist_sq(before[k as int].pos, target) <= dist_sq(
                                    before[j].pos,
                                    target,
                                ));
                            }
                        }
                        assert forall|j: int| 0 <= j < i && allowed(mask@, j) implies dist_sq(
                            after[i as int].pos,
                            target,
                        ) < dist_sq(#[trigger] after[j].pos, target) by {
                            assert(dist_sq(before[k as int].pos, target) <= dist_sq(
                                before[j].pos,
                                target,
                            ));
                        }
                        best = Some(i);
                        best_dist = d;
                    } else {
                        assert forall|j: int|
                            0 <= j < after.len() && allowed(mask@, j) implies dist_sq(
                            after[k as int].pos,
                            target,
                        ) <= dist_sq(#[trigger] after[j].pos, target) by {
                            if j < i {
                                assert(dist_sq(before[k as int].pos, target) <= dist_sq(
                                    before[j].pos,
                                    target,
                                ));
                            }
                        }
                        assert forall|j: int| 0 <= j < k && allowed(mask@, j) implies dist_sq(
                            after[k as int].pos,
                            target,
                        ) < dist_sq(#[trigger] after[j].pos, target) by {
                            assert(dist_sq(before[k as int].pos, target) < dist_sq(
                                before[j].pos,
                                target,
                            ));
                        }
                    }
                },
            }
        } else {
            match best {
                None => {},
                Some(k) => {
                    assert forall|j: int|
                        0 <= j < after.len() && allowed(mask@, j) implies dist_sq(
                        after[k as int].pos,
                        target,
                    ) <= dist_sq(#[trigger] after[j].pos, target) by {
                        assert(dist_sq(before[k as int].pos, target) <= dist_sq(
                            before[j].pos,
                            target,
                        ));
                    }
                    assert forall|j: int| 0 <= j < k && allowed(mask@, j) implies dist_sq(
                        after[k as int].pos,
                        target,
                    ) < dist_sq(#[trigger] after[j].pos, target) by {
                        assert(dist_sq(before[k as int].pos, target) < dist_sq(
                            before[j].pos,
                            target,
                        ));
                    }
                },
            }
        }
        i = i + 1;
    }
    proof {
        assert(units@.take(units.len() as int) =~= units@);
        match best {
            Some(k) => {
                nearest_is(units@, mask@, target, k as int);
            },
            None => {
                nearest_none_iff(units@, mask@, target);
            },
        }
    }
    best
}

/// `k` is the first position that `mask` lets through.
pub open spec fn is_first_set(mask: Seq<bool>, k: int) -> bool {
    &&& allowed(mask, k)
    &&& forall|i: int| 0 <= i < k ==> !#[trigger] allowed(mask, i)
}

/// The first position that `mask` lets through, if it lets any through.
pub open spec fn first_set(mask: Seq<bool>) -> Option<int> {
    if exists|k: int| is_first_set(mask, k) {
        Some(choose|k: int| is_first_set(mask, k))
    } else {
        None
    }
}

/// Where some position is the first let through, [`first_set`] names it.
pub proof fn first_set_is(mask: Seq<bool>, k: int)
    requires
        is_first_set(mask, k),
    ensures
        first_set(mask) == Some(k),
{
    let c = choose|c: int| is_first_set(mask, c);
    if c < k {
        assert(allowed(mask, c));
    } else if k < c {
        assert(allowed(mask, k));
    }
}

/// Finds the first position that `mask` lets through.
pub fn find_first(mask: &Vec<bool>) -> (found: Option<usize>)
    ensures
        found matches Some(k) ==> is_first_set(mask@, k as int),
        found is None ==> forall|i: int| !#[trigger] allowed(mask@, i),
        first_set(mask@) == match found {
            Some(k) => Some(k as int),
            None => None,
        },
{
    let mut i: usize = 0;
    while i < mask.len()
        invariant
            0 <= i <= mask@.len(),
            forall|j: int| 0 <= j < i ==> !#[trigger] allowed(mask@, j),
        decreases mask@.len() - i,
    {
        if mask[i] {
            proof {
                first_set_is(mask@, i as int);
            }
            return Some(i);
        }
        i = i + 1;
    }
    proof {
        if exists|k: int| is_first_set(mask@, k) {
            let k = choose|k: int| is_first_set(mask@, k);
            assert(allowed(mask@, k));
        }
    }
    None
}

} // verus!
