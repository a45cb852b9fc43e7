//! Discrete events of the engine, and what the agent has to report of them.
//! Events reach the agent in a batch with each snapshot; writing the
//! reports out is left to the caller.

use crate::ids::{canonical, group_of};
use crate::resolver::{count_group, owned};
use crate::select::{find_first, first_set};
use crate::world::{Unit, World};
use vstd::prelude::*;

verus! {

/// Who a unit belonged to.
#[derive(Clone, Copy, Debug, PartialEq, Eq)]
pub enum Owner {
    Own,
    Ally,
    Neutral,
    Enemy,
}

/// A notification of the engine, delivered at most once.
#[derive(Clone, Copy, Debug, PartialEq, Eq)]
pub enum Event {
    UnitDestroyed { tag: u64, owner: Option<Owner> },
    UnitCreated { tag: u64 },
    ConstructionStarted { tag: u64 },
    ConstructionComplete { tag: u64 },
    RandomRaceDetected { race: u32 },
}

/// Match time in minutes and seconds.
#[derive(Clone, Copy, Debug, PartialEq, Eq)]
pub struct Clock {
    pub minutes: u32,
    pub seconds: u32,
}

/// What is worth telling of an event.
#[derive(Clone, Copy, Debug, PartialEq, Eq)]
pub enum Report {
    /// One of the agent's own units was destroyed; `left` of its alias group remain.
    Lost { at: Clock, type_id: u32, left: u128 },
    /// An enemy unit was destroyed.
    Killed { at: Clock, type_id: u32 },
    /// The opponent's random race showed itself.
    RaceDetected { at: Clock, race: u32 },
}

/// Whole seconds of match time at `game_loop`, at 22.4 loops to the second.
pub open spec fn seconds_at(game_loop: u32) -> int {
    game_loop * 10 / 224
}

/// The match clock at `game_loop`.
pub open spec fn clock_at(game_loop: u32) -> Clock {
    Clock {
        minutes: (seconds_at(game_loop) / 60) as u32,
        seconds: (seconds_at(game_loop) % 60) as u32,
    }
}

/// The units that carry `tag`.
pub open spec fn tagged(units: Seq<Unit>, tag: u64) -> Seq<bool> {
    Seq::new(units.len(), |i: int| units[i].tag == tag)
}

/// Only the loss of a unit that the snapshot still knows, and the detection of
/// the opponent's race, are reported.
pub open spec fn report_of(world: World, event: Event) -> Option<Report> {
    match event {
        Event::UnitDestroyed { tag, owner: Some(owner) } => match first_set(
            tagged(world.everyone@, tag),
        ) {
            Some(k) => match owner {
                Owner::Own => Some(
                    Report::Lost {
                        at: clock_at(world.game_loop),
                        type_id: world.everyone@[k].type_id,
                        left: owned(world, group_of(world.everyone@[k].type_id)) as u128,
                    },
                ),
                Owner::Enemy => Some(
                    Report::Killed {
                        at: clock_at(world.game_loop),
                        type_id: world.everyone@[k].type_id,
                    },
                ),
                _ => None,
            },
            None => None,
        },
        Event::RandomRaceDetected { race } => Some(
            Report::RaceDetected { at: clock_at(world.game_loop), race },
        ),
        _ => None,
    }
}

/// The reports of the first `n` events of a batch, in the order of the events.
pub open spec fn reports_of(world: World, batch: Seq<Event>, n: int) -> Seq<Report>
    decreases n,
{
    if n <= 0 {
        Seq::empty()
    } else {
        match report_of(world, batch[n - 1]) {
            Some(report) => reports_of(world, batch, n - 1).push(report),
            None => reports_of(world, batch, n - 1),
        }
    }
}

/// Reads the match clock at `game_loop`.
pub fn clock(game_loop: u32) -> (at: Clock)
    ensures
        at == clock_at(game_loop),
        at.seconds < 60,
{
    let seconds: u64 = (game_loop as u64) * 10 / 224;
    Clock { minutes: (seconds / 60) as u32, seconds: (seconds % 60) as u32 }
}

fn tag_mask(units: &Vec<Unit>, tag: u64) -> (mask: Vec<bool>)
    ensures
        mask@ == tagged(units@, tag),
{
    let mut mask: Vec<bool> = Vec::new();
    let mut i: usize = 0;
    while i < units.len()
        invariant
            0 <= i <= units@.len(),
            mask@.len() == i,
            forall|j: int| 0 <= j < i ==> mask@[j] == tagged(units@, tag)[j],
        decreases units@.len() - i,
    {
        mask.push(units[i].tag == tag);
        i = i + 1;
    }
    assert(mask@ =~= tagged(units@, tag));
    mask
}

/// Decides what to report of `event`.
pub fn on_event(world: &World, event: Event) -> (report: Option<Report>)
    ensures
        report == report_of(*world, event),
{
    match event {
        Event::UnitDestroyed { tag, owner: Some(owner) } => {
            let mask = tag_mask(&world.everyone, tag);
            match find_first(&mask) {
                Some(k) => {
                    let type_id = world.everyone[k].type_id;
                    match owner {
                        Owner::Own => Some(
                            Report::Lost {
                                at: clock(world.game_loop),
                                type_id,
                                left: count_group(world, canonical(type_id)),
                            },
                        ),
                        Owner::Enemy => Some(Report::Killed { at: clock(world.game_loop), type_id }),
                        _ => None,
                    }
                },
                None => None,
            }
        },
        Event::RandomRaceDetected { race } => Some(
            Report::RaceDetected { at: clock(world.game_loop), race },
        ),
        _ => None,
    }
}

/// Goes through the batch of events that came with the snapshot, in its
/// order, and collects what there is to report.
pub fn process_events(world: &World, batch: &Vec<Event>) -> (reports: Vec<Report>)
    ensures
        reports@ == reports_of(*world, batch@, batch@.len() as int),
{
    let mut reports: Vec<Report> = Vec::new();
    let mut i: usize = 0;
    while i < batch.len()
        invariant
            0 <= i <= batch@.len(),
            reports@ == reports_of(*world, batch@, i as int),
        decreases batch@.len() - i,
    {
        match on_event(world, batch[i]) {
            Some(report) => {
                reports.push(report);
            },
            None => {},
        }
        i = i + 1;
    }
    reports
}

} // verus!
