//! Data about the game kept for the wiki: names of cats, enemies, treasures
//! and talents.

pub mod cat_data;
pub mod enemy_data;
pub mod rewards;
pub mod talent_names;
