//! The entities of a session.

pub mod enemy;
pub mod player;
