//! Enemies of a stage.

use super::stage_data::csv_types::StageEnemyCSV;
use vstd::prelude::*;

verus! {

/// Type of boss.
#[derive(Debug, Clone, Copy, PartialEq, Eq, Structural)]
pub enum BossType {
    /// Not a boss.
    NotBoss,
    /// Boss.
    Boss,
    /// Boss that shakes the screen.
    ScreenShake,
}

impl BossType {
    /// Boss type from its number in the file.
    pub fn from_u32(n: u32) -> (b: Self)
        requires
            n <= 2,
        ensures
            b == (if n == 0 { BossType::NotBoss } else if n == 1 { BossType::Boss } else { BossType::ScreenShake }),
    {
        if n == 0 {
            BossType::NotBoss
        } else if n == 1 {
            BossType::Boss
        } else {
            BossType::ScreenShake
        }
    }
}

/// Magnification of an enemy: one for hit points and attack, or a
/// separate one for each.
#[derive(Debug, Clone, Copy, PartialEq, Eq, Structural)]
pub enum Magnification {
    /// Same magnification for hit points and attack.
    Single(u32),
    /// Hit point and attack magnifications.
    Split(u32, u32),
}

/// Enemy in a stage.
#[derive(Debug, Clone, Copy, PartialEq, Eq)]
pub struct StageEnemy {
    /// Enemy id.
    pub id: u32,
    /// Amount of the enemy (0 for unlimited).
    pub amount: u32,
    /// First spawn frame.
    pub start_frame: u32,
    /// Whether the first spawn frame is enforced.
    pub enforce_start_frame: bool,
    /// Least and greatest respawn time in frames.
    pub respawn_time: (u32, u32),
    /// Base hit points (percentage) at which the enemy appears.
    pub base_hp: u32,
    /// Lowest and highest layer.
    pub layer: (u32, u32),
    /// Boss type.
    pub boss_type: BossType,
    /// Magnification.
    pub magnification: Magnification,
    /// Kills needed before the enemy appears.
    pub kill_count: u32,
}

/// Lines that convert to enemies: the enemy number is at least 2, frame
/// counts can be doubled, and the flags hold known values.
pub open spec fn enemy_line_ok(v: StageEnemyCSV) -> bool {
    &&& v.num >= 2
    &&& v.start_frame * 2 <= u32::MAX
    &&& v.respawn_frame_min * 2 <= u32::MAX
    &&& v.respawn_frame_max * 2 <= u32::MAX
    &&& v.boss_type <= 2
    &&& v.is_spawn_delay matches Some(b) ==> b <= 1
}

impl StageEnemy {
    /// Enemy from its line in the stage file: the enemy id is the number
    /// less 2, frames are doubled, a missing hit point magnification is
    /// 100%, an attack magnification of 0 or none means the same as hit
    /// points, and a missing kill count is 0.
    pub fn from_csv(value: StageEnemyCSV) -> (e: Self)
        requires
            enemy_line_ok(value),
        ensures
            e.id == value.num - 2,
            e.amount == value.amt,
            e.start_frame == value.start_frame * 2,
            e.enforce_start_frame == (value.is_spawn_delay == Some(1u32)),
            e.respawn_time.0 == value.respawn_frame_min * 2,
            e.respawn_time.1 == value.respawn_frame_max * 2,
            e.base_hp == value.base_hp,
            e.layer == (value.layer_min, value.layer_max),
            e.boss_type == (if value.boss_type == 0 { BossType::NotBoss } else if value.boss_type == 1 { BossType::Boss } else { BossType::ScreenShake }),
            e.magnification == match value.attack_magnification {
                Some(a) if a != 0 => Magnification::Split(
                    match value.magnification { Some(m) => m, None => 100u32 },
                    a,
                ),
                _ => Magnification::Single(match value.magnification { Some(m) => m, None => 100u32 }),
            },
            e.kill_count == match value.kill_count { Some(k) => k, None => 0u32 },
    {
        let enforce_start_frame = match value.is_spawn_delay {
            None => false,
            Some(b) => b == 1,
        };
        let hpmag = match value.magnification {
            Some(m) => m,
            None => 100,
        };
        let magnification = match value.attack_magnification {
            None => Magnification::Single(hpmag),
            Some(a) => if a == 0 {
                Magnification::Single(hpmag)
            } else {
                Magnification::Split(hpmag, a)
            },
        };
        let kill_count = match value.kill_count {
            Some(k) => k,
            None => 0,
        };
        Self {
            id: value.num - 2,
            amount: value.amt,
            start_frame: value.start_frame * 2,
            enforce_start_frame,
            respawn_time: (value.respawn_frame_min * 2, value.respawn_frame_max * 2),
            base_hp: value.base_hp,
            layer: (value.layer_min, value.layer_max),
            boss_type: BossType::from_u32(value.boss_type),
            magnification,
            kill_count,
        }
    }
}

} // verus!
