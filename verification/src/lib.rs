//! The decisions of a game assistant: which action the player performs next, what a tick makes of
//! the player's state, how daily quests are traveled to and counted, and how events in the world
//! are responded to.
//!
//! Nothing here looks at the screen or simulates an input. A tick is given what was detected and
//! drawn at random, and gives back the inputs to simulate and the detections it has used.

pub mod checklist;
pub mod clock;
pub mod daily;
pub mod ecs;
pub mod geometry;
pub mod laws;
pub mod models;
pub mod player;
pub mod rotator;
pub mod world_event;
