//! Makers of the entities of a session, by name.

pub mod enemy_factory;
pub mod player_factory;
