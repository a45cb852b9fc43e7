//! Stable type ids of the units, structures and upgrades the agent deals with,
//! and the alias groups under which morph-equivalent types are counted as one.

use vstd::prelude::*;

verus! {

// Unit types.
pub const TECH_LAB: u32 = 5;
pub const REACTOR: u32 = 6;
pub const COMMAND_CENTER: u32 = 18;
pub const SUPPLY_DEPOT: u32 = 19;
pub const REFINERY: u32 = 20;
pub const BARRACKS: u32 = 21;
pub const ENGINEERING_BAY: u32 = 22;
pub const FACTORY: u32 = 27;
pub const STARPORT: u32 = 28;
pub const ARMORY: u32 = 29;
pub const SIEGE_TANK_SIEGED: u32 = 32;
pub const SIEGE_TANK: u32 = 33;
pub const COMMAND_CENTER_FLYING: u32 = 36;
pub const BARRACKS_TECH_LAB: u32 = 37;
pub const BARRACKS_REACTOR: u32 = 38;
pub const FACTORY_TECH_LAB: u32 = 39;
pub const FACTORY_REACTOR: u32 = 40;
pub const STARPORT_TECH_LAB: u32 = 41;
pub const STARPORT_REACTOR: u32 = 42;
pub const FACTORY_FLYING: u32 = 43;
pub const STARPORT_FLYING: u32 = 44;
pub const SCV: u32 = 45;
pub const BARRACKS_FLYING: u32 = 46;
pub const SUPPLY_DEPOT_LOWERED: u32 = 47;
pub const MARINE: u32 = 48;
pub const REAPER: u32 = 49;
pub const HELLION: u32 = 53;
pub const MEDIVAC: u32 = 54;
pub const RAVEN: u32 = 56;
pub const PLANETARY_FORTRESS: u32 = 130;
pub const ORBITAL_COMMAND: u32 = 132;
pub const ORBITAL_COMMAND_FLYING: u32 = 134;
pub const CYCLONE: u32 = 692;
pub const REFINERY_RICH: u32 = 1943;

// Upgrades.
pub const INFANTRY_WEAPONS_1: u32 = 7;
pub const INFANTRY_WEAPONS_2: u32 = 8;
pub const INFANTRY_WEAPONS_3: u32 = 9;
pub const INFANTRY_ARMOR_1: u32 = 11;
pub const INFANTRY_ARMOR_2: u32 = 12;
pub const INFANTRY_ARMOR_3: u32 = 13;
pub const STIMPACK: u32 = 15;
pub const SHIELD_WALL: u32 = 16;

/// The type ids that single out a race's economy.
#[derive(Clone, Copy, Debug, PartialEq, Eq)]
pub struct RaceIds {
    /// The town hall a worker can build.
    pub townhall: u32,
    /// The town hall's first upgrade.
    pub townhall_upgrade: u32,
    /// The gas-extraction structure.
    pub gas: u32,
    /// The supply provider.
    pub supply: u32,
    pub worker: u32,
}

impl RaceIds {
    /// The ids of the Terran economy.
    pub open spec fn terran_ids() -> RaceIds {
        RaceIds {
            townhall: COMMAND_CENTER,
            townhall_upgrade: ORBITAL_COMMAND,
            gas: REFINERY,
            supply: SUPPLY_DEPOT,
            worker: SCV,
        }
    }

    /// The ids of the Terran economy.
    pub fn terran() -> (ids: RaceIds)
        ensures
            ids == RaceIds::terran_ids(),
    {
        RaceIds {
            townhall: COMMAND_CENTER,
            townhall_upgrade: ORBITAL_COMMAND,
            gas: REFINERY,
            supply: SUPPLY_DEPOT,
            worker: SCV,
        }
    }
}

/// The canonical id of the alias group that `id` belongs to. A town hall in any
/// of its forms counts as the base town hall, a lifted or lowered structure as
/// the structure, a sieged tank as the tank; every other id is its own group.
pub open spec fn group_of(id: u32) -> u32 {
    if id == COMMAND_CENTER_FLYING || id == ORBITAL_COMMAND || id == ORBITAL_COMMAND_FLYING || id
        == PLANETARY_FORTRESS {
        COMMAND_CENTER
    } else if id == SUPPLY_DEPOT_LOWERED {
        SUPPLY_DEPOT
    } else if id == BARRACKS_FLYING {
        BARRACKS
    } else if id == FACTORY_FLYING {
        FACTORY
    } else if id == STARPORT_FLYING {
        STARPORT
    } else if id == REFINERY_RICH {
        REFINERY
    } else if id == SIEGE_TANK_SIEGED {
        SIEGE_TANK
    } else {
        id
    }
}

/// Resolves `id` to the canonical id of its alias group.
pub fn canonical(id: u32) -> (group: u32)
    ensures
        group == group_of(id),
{
    if id == COMMAND_CENTER_FLYING || id == ORBITAL_COMMAND || id == ORBITAL_COMMAND_FLYING || id
        == PLANETARY_FORTRESS {
        COMMAND_CENTER
    } else if id == SUPPLY_DEPOT_LOWERED {
        SUPPLY_DEPOT
    } else if id == BARRACKS_FLYING {
        BARRACKS
    } else if id == FACTORY_FLYING {
        FACTORY
    } else if id == STARPORT_FLYING {
        STARPORT
    } else if id == REFINERY_RICH {
        REFINERY
    } else if id == SIEGE_TANK_SIEGED {
        SIEGE_TANK
    } else {
        id
    }
}

/// Alias resolution is idempotent: a canonical id is its own group.
pub proof fn alias_resolution_is_idempotent(id: u32)
    ensures
        group_of(group_of(id)) == group_of(id),
{
}

/// The structure that carries the addon `addon`; `None` for anything that is
/// not an addon of a production structure.
pub open spec fn addon_carrier(addon: u32) -> Option<u32> {
    if addon == BARRACKS_REACTOR || addon == BARRACKS_TECH_LAB {
        Some(BARRACKS)
    } else if addon == FACTORY_REACTOR || addon == FACTORY_TECH_LAB {
        Some(FACTORY)
    } else if addon == STARPORT_REACTOR || addon == STARPORT_TECH_LAB {
        Some(STARPORT)
    } else {
        None
    }
}

/// Looks up the structure that carries `addon`.
pub fn addon_base(addon: u32) -> (base: Option<u32>)
    ensures
        base == addon_carrier(addon),
{
    if addon == BARRACKS_REACTOR || addon == BARRACKS_TECH_LAB {
        Some(BARRACKS)
    } else if addon == FACTORY_REACTOR || addon == FACTORY_TECH_LAB {
        Some(FACTORY)
    } else if addon == STARPORT_REACTOR || addon == STARPORT_TECH_LAB {
        Some(STARPORT)
    } else {
        None
    }
}

/// The structure that must be finished before `upgrade` can be researched,
/// for the upgrades that need one: the second and third level of the infantry
/// upgrades need an armory.
pub open spec fn upgrade_gate(upgrade: u32) -> Option<u32> {
    if upgrade == INFANTRY_WEAPONS_2 || upgrade == INFANTRY_ARMOR_2 || upgrade
        == INFANTRY_WEAPONS_3 || upgrade == INFANTRY_ARMOR_3 {
        Some(ARMORY)
    } else {
        None
    }
}

/// Looks up the structure that gates `upgrade`.
pub fn upgrade_requirement(upgrade: u32) -> (gate: Option<u32>)
    ensures
        gate == upgrade_gate(upgrade),
{
    if upgrade == INFANTRY_WEAPONS_2 || upgrade == INFANTRY_ARMOR_2 || upgrade
        == INFANTRY_WEAPONS_3 || upgrade == INFANTRY_ARMOR_3 {
        Some(ARMORY)
    } else {
        None
    }
}

/// The standard build order, as type ids.
pub open spec fn standard_build() -> Seq<u32> {
    seq![
        SUPPLY_DEPOT,
        BARRACKS,
        REFINERY,
        REFINERY,
        REAPER,
        ORBITAL_COMMAND,
        SUPPLY_DEPOT,
        FACTORY,
        REAPER,
        COMMAND_CENTER,
        HELLION,
        SUPPLY_DEPOT,
        REAPER,
        STARPORT,
        HELLION,
        BARRACKS_REACTOR,
        REFINERY,
        FACTORY_TECH_LAB,
        STARPORT_TECH_LAB,
        ORBITAL_COMMAND,
        CYCLONE,
        MARINE,
        MARINE,
        RAVEN,
        SUPPLY_DEPOT,
        MARINE,
        MARINE,
        SIEGE_TANK,
        SUPPLY_DEPOT,
        MARINE,
        MARINE,
        RAVEN,
        MARINE,
        MARINE,
        SIEGE_TANK,
        MARINE,
        MARINE,
    ]
}

/// The standard upgrade order, as upgrade ids.
pub open spec fn standard_upgrades() -> Seq<u32> {
    seq![
        SHIELD_WALL,
        STIMPACK,
        INFANTRY_WEAPONS_1,
        INFANTRY_ARMOR_1,
        INFANTRY_WEAPONS_2,
        INFANTRY_ARMOR_2,
        INFANTRY_WEAPONS_3,
        INFANTRY_ARMOR_3,
    ]
}

/// Lists the standard build order.
pub fn build_order_ids() -> (order: Vec<u32>)
    ensures
        order@ == standard_build(),
{
    let order = vec![
        SUPPLY_DEPOT,
        BARRACKS,
        REFINERY,
        REFINERY,
        REAPER,
        ORBITAL_COMMAND,
        SUPPLY_DEPOT,
        FACTORY,
        REAPER,
        COMMAND_CENTER,
        HELLION,
        SUPPLY_DEPOT,
        REAPER,
        STARPORT,
        HELLION,
        BARRACKS_REACTOR,
        REFINERY,
        FACTORY_TECH_LAB,
        STARPORT_TECH_LAB,
        ORBITAL_COMMAND,
        CYCLONE,
        MARINE,
        MARINE,
        RAVEN,
        SUPPLY_DEPOT,
        MARINE,
        MARINE,
        SIEGE_TANK,
        SUPPLY_DEPOT,
        MARINE,
        MARINE,
        RAVEN,
        MARINE,
        MARINE,
        SIEGE_TANK,
        MARINE,
        MARINE,
    ];
    assert(order@ =~= standard_build());
    order
}

/// Lists the standard upgrade order.
pub fn upgrade_order_ids() -> (order: Vec<u32>)
    ensures
        order@ == standard_upgrades(),
{
    let order = vec![
        SHIELD_WALL,
        STIMPACK,
        INFANTRY_WEAPONS_1,
        INFANTRY_ARMOR_1,
        INFANTRY_WEAPONS_2,
        INFANTRY_ARMOR_2,
        INFANTRY_WEAPONS_3,
        INFANTRY_ARMOR_3,
    ];
    assert(order@ =~= standard_upgrades());
    order
}

} // verus!
