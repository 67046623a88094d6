//! Helpers around the entities.

pub mod entities;
