//! A terminal reflex game: a bird falls under gravity, jumps a limited number
//! of times between landings, and dodges obstacles that scroll toward it.
//! The simulation, the character grid shown to the player and the decisions
//! of the real-time loop are verified here.

pub mod bird;
pub mod config;
pub mod input;
pub mod obstacle;
pub mod game;
pub mod render;
pub mod driver;
