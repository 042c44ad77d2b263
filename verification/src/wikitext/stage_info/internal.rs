//! The items of the Stage Info template, one module each.

pub mod battlegrounds;
pub mod beginning;
pub mod enemies_list;
pub mod information;
pub mod misc_information;
pub mod restrictions;
pub mod treasure;
