//! Get info about a map.

pub mod legend;

use crate::meta::stage::variant::{StageVariant, StageVariantID};
use vstd::prelude::*;

verus! {

/// Types of map that map info is implemented for.
#[derive(Debug, Clone, Copy, PartialEq, Eq, Structural)]
pub enum Preset {
    /// Legend stages.
    Legend,
    /// Events and collaborations.
    Event,
    /// Gauntlets.
    Gauntlet,
    /// Colosseum.
    Colosseum,
}

/// Preset of the maps of a stage variant, where map info supports them.
pub open spec fn preset_of(st: StageVariantID) -> Option<Preset> {
    match st {
        StageVariant::SoL | StageVariant::UL | StageVariant::ZL => Some(Preset::Legend),
        StageVariant::Event | StageVariant::Collab => Some(Preset::Event),
        StageVariant::Gauntlet | StageVariant::CollabGauntlet => Some(Preset::Gauntlet),
        StageVariant::Colosseum => Some(Preset::Colosseum),
        _ => None,
    }
}

/// Get the preset value of the stage variant.
pub fn get_preset(st: StageVariantID) -> (p: Option<Preset>)
    ensures
        p == preset_of(st),
{
    match st {
        StageVariant::SoL | StageVariant::UL | StageVariant::ZL => Some(Preset::Legend),
        StageVariant::Event | StageVariant::Collab => Some(Preset::Event),
        StageVariant::Gauntlet | StageVariant::CollabGauntlet => Some(Preset::Gauntlet),
        StageVariant::Colosseum => Some(Preset::Colosseum),
        StageVariant::Dojo | StageVariant::RankingDojo | StageVariant::Championships => None,
        StageVariant::MainChapters | StageVariant::Filibuster | StageVariant::AkuRealms => None,
        StageVariant::EocOutbreak | StageVariant::ItfOutbreak | StageVariant::CotcOutbreak => None,
        StageVariant::Tower | StageVariant::Labyrinth => None,
        StageVariant::Behemoth => None,
        StageVariant::Challenge | StageVariant::Enigma => None,
        StageVariant::Extra | StageVariant::Catamin => None,
    }
}

} // verus!
