//! Identifiers and metadata of game content.

pub mod stage;
