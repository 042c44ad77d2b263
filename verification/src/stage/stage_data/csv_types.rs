//! Types that stage data files deserialise into.

use vstd::prelude::*;

verus! {

/// First line of a stage file (present in most stages).
#[derive(Debug, Clone, Copy, PartialEq, Eq, Default)]
pub struct HeaderCSV {
    /// Base id (negative for enemy bases).
    pub base_id: i32,
    /// 1 if the stage has no continues.
    pub no_cont: u32,
    /// Chance of a continuation stage.
    pub cont_chance: u32,
    /// Map of the continuation stages.
    pub contmap_id: u32,
    /// First continuation stage.
    pub cont_stage_idmin: u32,
    /// Last continuation stage.
    pub cont_stage_idmax: u32,
}

/// Line with the stage's settings.
#[derive(Debug, Clone, Copy, PartialEq, Eq)]
pub struct Line2CSV {
    /// Width of the stage.
    pub width: u32,
    /// Hit points of the enemy base.
    pub base_hp: u32,
    /// Background.
    pub background_id: u32,
    /// Most enemies at once.
    pub max_enemies: u32,
    /// Animated base.
    pub animbase_id: u32,
    /// Time limit.
    pub time_limit: u32,
    /// 1 if the base is indestructible.
    pub indestructible: u32,
}

/// Line of an enemy in a stage file.
#[derive(Debug, Clone, Copy, PartialEq, Eq)]
pub struct StageEnemyCSV {
    /// Enemy number (enemy id + 2).
    pub num: u32,
    /// Amount of the enemy (0 for unlimited).
    pub amt: u32,
    /// First spawn frame (halved).
    pub start_frame: u32,
    /// Least respawn time (halved).
    pub respawn_frame_min: u32,
    /// Greatest respawn time (halved).
    pub respawn_frame_max: u32,
    /// Base hit points (percentage) at which the enemy appears.
    pub base_hp: u32,
    /// Lowest layer.
    pub layer_min: u32,
    /// Highest layer.
    pub layer_max: u32,
    /// Boss flag.
    pub boss_type: u32,
    /// Hit point magnification.
    pub magnification: Option<u32>,
    /// Attack magnification.
    pub attack_magnification: Option<u32>,
    /// Whether the first spawn frame is enforced.
    pub is_spawn_delay: Option<u32>,
    /// Kills needed before the enemy appears.
    pub kill_count: Option<u32>,
}

/// Raw data of a stage file.
#[derive(Debug)]
pub struct RawCSVData {
    /// First line.
    pub header: HeaderCSV,
    /// Settings line.
    pub line2: Line2CSV,
    /// Enemy lines.
    pub enemies: Vec<StageEnemyCSV>,
}

} // verus!
