//! A small turn-based skirmish: players, enemies, an event bus, and the
//! session that drives one round of combat.
//!
//! Nothing in this crate prints. Every operation returns the records of what
//! it did, in order, and its contract states both the new state and those
//! records over the mathematical views of the types involved.

pub mod colorful;
pub mod event_laws;
pub mod factory;
pub mod game;
pub mod game_event;
pub mod game_system;
pub mod models;
pub mod names;
pub mod record;
pub mod session_laws;
pub mod utils;
