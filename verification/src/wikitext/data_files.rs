//! Data files of the wiki: names and other data that the game files lack.

pub mod stage_wiki_data;
