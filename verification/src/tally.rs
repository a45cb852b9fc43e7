//! Counting how often each alias group is asked for, in a hash map keyed by the
//! group's canonical id. The map is `rustc_hash`'s `FxHashMap`. What its
//! methods do is not proved here: it is taken on trust, as stated at each of
//! the three functions that call them.

use rustc_hash::FxHashMap;
use rustc_hash::FxHasher;
use std::hash::BuildHasherDefault;
use vstd::prelude::*;

verus! {

/// `rustc_hash::FxHasher`, the hasher of the tally. Nothing is said of it.
#[verifier::external_type_specification]
#[verifier::external_body]
pub struct ExFxHasher(FxHasher);

/// `std::hash::BuildHasherDefault`, which makes the tally's hashers. Nothing
/// is said of it.
#[verifier::external_type_specification]
#[verifier::external_body]
#[verifier::reject_recursive_types(H)]
pub struct ExBuildHasherDefault<H>(BuildHasherDefault<H>);

/// Required counts by canonical id.
pub type Tally = FxHashMap<u32, u128>;

/// What a tally holds: the number recorded for each key that was inserted.
/// The functions below say how `FxHashMap`'s methods read and change it.
pub uninterp spec fn entries(tally: Tally) -> Map<u32, u128>;

/// `FxHashMap::default`: a map that holds nothing.
#[verifier::external_body]
pub(crate) fn tally_new() -> (fresh: Tally)
    ensures
        forall|key: u32| !entries(fresh).dom().contains(key),
{
    FxHashMap::default()
}

/// `HashMap::get` on a map hashed with `FxHasher`: the number recorded for
/// `key`, or `None` where the key was never inserted.
#[verifier::external_body]
pub(crate) fn tally_get(tally: &Tally, key: u32) -> (found: Option<u128>)
    ensures
        found == (if entries(*tally).dom().contains(key) {
            Some(entries(*tally)[key])
        } else {
            None::<u128>
        }),
{
    match tally.get(&key) {
        Some(n) => Some(*n),
        None => None,
    }
}

/// `HashMap::insert` on a map hashed with `FxHasher`: afterwards `key` holds
/// `value`, and every other key holds what it held.
#[verifier::external_body]
pub(crate) fn tally_insert(tally: &mut Tally, key: u32, value: u128)
    ensures
        entries(*final(tally)) == entries(*old(tally)).insert(key, value),
{
    tally.insert(key, value);
}

} // verus!
