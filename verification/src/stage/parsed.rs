//! Stages as the wiki pages see them.

pub mod stage;
