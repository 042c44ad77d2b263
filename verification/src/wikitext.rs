//! Generation of wikitext.

pub mod data_files;
pub mod encounters;
pub mod format_parser;
pub mod gauntlet;
pub mod map_info;
pub mod number_utils;
pub mod page;
pub mod section;
pub mod stage_info;
pub mod tabber;
pub mod template;
