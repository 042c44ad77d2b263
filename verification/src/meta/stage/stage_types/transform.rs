//! Transform ID data into various formats.

pub mod transform_map;
pub mod transform_stage;
