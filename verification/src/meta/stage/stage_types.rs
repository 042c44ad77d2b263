//! Defines information that can be used to obtain or transform pure data from
//! or into usable formats.

pub mod data;
pub mod parse;
pub mod roundtrip;
pub mod transform;
pub mod types;

pub use data::get_stage_type;
