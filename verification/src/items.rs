//! Production items: what can be built, trained or researched, with its price
//! and what it takes to make it.

use crate::ledger::Cost;
use vstd::prelude::*;

verus! {

/// The four kinds of production item.
#[derive(Clone, Copy, Debug, PartialEq, Eq)]
pub enum ItemKind {
    Structure,
    Unit,
    Addon,
    Upgrade,
}

/// One entry of a priority list.
#[derive(Clone, Copy, Debug, PartialEq, Eq)]
pub struct ProductionItem {
    pub kind: ItemKind,
    /// Stable type id: a unit type for the first three kinds, an upgrade id for the last.
    pub id: u32,
    pub cost: Cost,
    /// Type of the structure that trains or researches the item.
    pub producer: Option<u32>,
    /// Type that must be finished before the item can be started.
    pub requirement: Option<u32>,
}

/// The kind of a unit type, from what the type tables say of it: mobile units
/// first, then addons, then structures. `None` for a type that is none of them.
pub open spec fn kind_of(mobile: bool, addon: bool, structure: bool) -> Option<ItemKind> {
    if mobile {
        Some(ItemKind::Unit)
    } else if addon {
        Some(ItemKind::Addon)
    } else if structure {
        Some(ItemKind::Structure)
    } else {
        None
    }
}

/// Classifies a unit type from the three answers of the type tables.
pub fn classify(mobile: bool, addon: bool, structure: bool) -> (kind: Option<ItemKind>)
    ensures
        kind == kind_of(mobile, addon, structure),
{
    if mobile {
        Some(ItemKind::Unit)
    } else if addon {
        Some(ItemKind::Addon)
    } else if structure {
        Some(ItemKind::Structure)
    } else {
        None
    }
}

impl ProductionItem {
    /// Supply is committed when the order is issued only for mobile units.
    pub open spec fn takes_supply(self) -> bool {
        self.kind is Unit
    }

    /// Tells whether reserving the item commits its supply.
    pub fn commits_supply(&self) -> (b: bool)
        ensures
            b == self.takes_supply(),
    {
        match self.kind {
            ItemKind::Unit => true,
            _ => false,
        }
    }
}

} // verus!
