//! Decision core of a tick-driven strategy agent: given one immutable snapshot
//! of the world per tick, it resolves what to produce next, keeps a ledger of
//! resources already committed, rebalances harvesters and steers the army.
//! Every function returns plain commands; performing them is the caller's job.
//!
//! The modules, leaf first: [`geometry`] and [`world`] hold the data of a
//! snapshot, [`select`] picks units from it, [`ids`] and [`items`] describe
//! what can be produced, [`ledger`] keeps the resources, [`resolver`] and
//! [`dispatch`] decide and issue production, [`workers`], [`economy`] and
//! [`training`] look after harvesters, supply and reinforcements, [`combat`]
//! steers the army, [`events`] reports, and [`agent`] runs a whole tick.

pub mod agent;
pub mod combat;
pub mod dispatch;
pub mod economy;
pub mod events;
pub mod geometry;
pub mod ids;
pub mod items;
pub mod ledger;
pub mod resolver;
pub mod select;
pub mod tally;
pub mod training;
pub mod workers;
pub mod world;
