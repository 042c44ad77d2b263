//! Parsing and storing metadata about stages.

pub mod map_data;
pub mod parsed;
pub mod stage_data;
pub mod stage_enemy;
pub mod stage_metadata;
pub mod stage_option;
pub mod stage_type;
