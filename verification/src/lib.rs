//! A two-cell vacuum world and the simple reflex agent that keeps it clean.
//!
//! The world holds the cleanliness of its two cells and the place of the
//! cleaner. The agent is a fixed table from what it perceives to what it does.
//! A run repeats one step: perceive, act, and let a draw from outside soil a
//! cell or not. The draws come from a script or from the thread's random
//! generator.
//!
//! Every executable function carries a contract over the spec functions beside
//! it, and the facts that relate several of them are public proof functions.

pub mod agent;
pub mod entropy;
pub mod simulation;
pub mod world;

pub use crate::agent::reflex_vacuum_agent;
pub use crate::simulation::{
    simulate, simulate_random, DRAW_HIGH, DRAW_LOW, SOILS_LEFT_ABOVE, SOILS_RIGHT_BELOW, STEPS,
};
pub use crate::world::{Action, Location, Perception, Status, World};
