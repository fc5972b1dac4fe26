//! What can be relied on, stated by what goes in and what comes out.

pub mod building;
pub mod catalog;
pub mod conditions;
pub mod events;
pub mod journeys;
pub mod jumping;
pub mod park;
pub mod players;
pub mod quests;
pub mod queueing;
pub mod rotation;
