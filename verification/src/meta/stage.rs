//! Identifiers of stages, maps and stage variants.

pub mod map_id;
pub mod stage_id;
pub mod stage_types;
pub mod variant;
