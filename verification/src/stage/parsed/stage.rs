//! A full stage: the parts of it that the wiki pages read.

use crate::stage::stage_enemy::StageEnemy;
use crate::stage::stage_metadata::StageMeta;
use crate::stage::stage_option::charagroups::CharaGroup;
use vstd::prelude::*;

verus! {

/// Which crown difficulties a restriction applies to.
#[derive(Debug, Clone, Copy, PartialEq, Eq, Structural)]
pub enum RestrictionCrowns {
    /// Only the given crown difficulty (counted from 1).
    One(u8),
    /// Every crown difficulty.
    All,
}

/// A set of restrictions on the cats that may be used in a stage.
#[derive(Debug)]
pub struct Restriction {
    /// Crown difficulties the restriction applies to.
    pub crowns_applied: RestrictionCrowns,
    /// Allowed rarities, bit `i` for rarity `i` (normal, special, rare,
    /// super rare, uber rare, legend rare).
    pub rarity: Option<u8>,
    /// Maximum number of cats that can be deployed.
    pub deploy_limit: Option<u32>,
    /// Only row that cats can be deployed from.
    pub rows: Option<u8>,
    /// Minimum deploy cost.
    pub min_cost: Option<u32>,
    /// Maximum deploy cost.
    pub max_cost: Option<u32>,
    /// Group of cats that are the only ones allowed or that are forbidden.
    pub charagroup: Option<CharaGroup>,
}

/// Crown data of a stage.
#[derive(Debug, Clone, Copy)]
pub struct CrownData {
    /// Highest crown difficulty (counted from 1).
    pub max_difficulty: u8,
    /// Magnification (percent) at two crowns.
    pub crown_2: Option<u32>,
    /// Magnification (percent) at three crowns.
    pub crown_3: Option<u32>,
    /// Magnification (percent) at four crowns.
    pub crown_4: Option<u32>,
}

/// How a stage's treasures drop.
#[derive(Debug, Clone, Copy, PartialEq, Eq, Structural)]
pub enum TreasureType {
    /// The first item drops once, the rest without limit.
    OnceThenUnlimited,
    /// Every item can drop without limit.
    AllUnlimited,
    /// Seemingly a single raw drop.
    UnclearMaybeRaw,
    /// One of the items is guaranteed, once.
    GuaranteedOnce,
    /// One of the items is guaranteed, without limit.
    GuaranteedUnlimited,
}

/// A treasure a stage can drop.
#[derive(Debug, Clone, Copy, PartialEq, Eq, Structural)]
pub struct TreasureDrop {
    /// Chance of the drop.
    pub item_chance: u32,
    /// Item dropped.
    pub item_id: u32,
    /// Amount of the item.
    pub item_amt: u32,
}

/// A reward for reaching a score.
#[derive(Debug, Clone, Copy, PartialEq, Eq, Structural)]
pub struct ScoreReward {
    /// Score to reach.
    pub score: u32,
    /// Item given.
    pub item_id: u32,
    /// Amount of the item.
    pub item_amt: u32,
}

/// Rewards of a stage.
#[derive(Debug, PartialEq)]
pub struct StageRewards {
    /// How the treasures drop.
    pub treasure_type: TreasureType,
    /// The treasures.
    pub treasure_drop: Vec<TreasureDrop>,
    /// The score rewards.
    pub score_rewards: Vec<ScoreReward>,
}

/// Stages of an Extra map that may follow a stage.
#[derive(Debug, Clone, Copy)]
pub struct ContinueStages {
    /// Chance (percent) that a continuation stage appears.
    pub chance: u32,
    /// Extra stages map.
    pub map_id: u32,
    /// First and last stage of the map that may appear.
    pub stage_ids: (u32, u32),
}

/// A stage.
#[derive(Debug)]
pub struct Stage {
    /// Metadata of the stage.
    pub meta: StageMeta,
    /// Id of the enemy base.
    pub base_id: i32,
    /// Width of the stage.
    pub width: u32,
    /// Hit points of the enemy base (not the true value where the base is an
    /// animated enemy).
    pub base_hp: u32,
    /// Most enemies on the field at once.
    pub max_enemies: u32,
    /// Number of the enemy whose animation is the base, where it has one.
    pub anim_base_id: Option<u32>,
    /// Time limit, where the stage has one.
    pub time_limit: Option<u32>,
    /// Energy cost, where the stage has one.
    pub energy: Option<u32>,
    /// Experience gained, where the stage gives any.
    pub xp: Option<u32>,
    /// Whether continues are disabled.
    pub is_no_continues: bool,
    /// Crown data, where the stage has any.
    pub crown_data: Option<CrownData>,
    /// Restrictions, where the stage has any.
    pub restrictions: Option<Vec<Restriction>>,
    /// How many times the stage can be cleared.
    pub max_clears: Option<u32>,
    /// Extra map that invades the stage, where one does.
    pub ex_invasion: Option<u32>,
    /// Stages that may follow the stage, where any do.
    pub continue_data: Option<ContinueStages>,
    /// Enemies of the stage, in the order of the stage file.
    pub enemies: Vec<StageEnemy>,
    /// Rewards of the stage, where it has any.
    pub rewards: Option<StageRewards>,
}

} // verus!
