//! The fixed table of sixteen hand-tuned levels.
use vstd::prelude::*;

verus! {

/// One level's immutable tuning: how many color sectors the player
/// shows, how often a wave fires (milliseconds), how many enemies each
/// wave brings, and how fast they fly (units per second).
#[derive(Clone, Copy, Debug)]
pub struct LevelInfo {
    pub index: u8,
    pub player_color_side: u8,
    pub enemy_wave_time: u32,
    pub enemy_wave_amount: u8,
    pub enemy_speed: u32,
}

/// The tuning record of level `i` of the fixed table, for `0 <= i < 16`.
pub open spec fn level_table(i: int) -> LevelInfo {
    if i == 0 {
        LevelInfo { index: 0, player_color_side: 2, enemy_wave_time: 3000, enemy_wave_amount: 1, enemy_speed: 256 }
    } else if i == 1 {
        LevelInfo { index: 1, player_color_side: 2, enemy_wave_time: 2000, enemy_wave_amount: 1, enemy_speed: 256 }
    } else if i == 2 {
        LevelInfo { index: 2, player_color_side: 2, enemy_wave_time: 2000, enemy_wave_amount: 1, enemy_speed: 292 }
    } else if i == 3 {
        LevelInfo { index: 3, player_color_side: 3, enemy_wave_time: 2000, enemy_wave_amount: 1, enemy_speed: 292 }
    } else if i == 4 {
        LevelInfo { index: 4, player_color_side: 3, enemy_wave_time: 1600, enemy_wave_amount: 1, enemy_speed: 292 }
    } else if i == 5 {
        LevelInfo { index: 5, player_color_side: 3, enemy_wave_time: 2000, enemy_wave_amount: 2, enemy_speed: 292 }
    } else if i == 6 {
        LevelInfo { index: 6, player_color_side: 4, enemy_wave_time: 2200, enemy_wave_amount: 1, enemy_speed: 292 }
    } else if i == 7 {
        LevelInfo { index: 7, player_color_side: 4, enemy_wave_time: 2500, enemy_wave_amount: 2, enemy_speed: 256 }
    } else if i == 8 {
        LevelInfo { index: 8, player_color_side: 4, enemy_wave_time: 2000, enemy_wave_amount: 2, enemy_speed: 288 }
    } else if i == 9 {
        LevelInfo { index: 9, player_color_side: 4, enemy_wave_time: 1700, enemy_wave_amount: 2, enemy_speed: 300 }
    } else if i == 10 {
        LevelInfo { index: 10, player_color_side: 5, enemy_wave_time: 2000, enemy_wave_amount: 1, enemy_speed: 280 }
    } else if i == 11 {
        LevelInfo { index: 11, player_color_side: 5, enemy_wave_time: 1800, enemy_wave_amount: 2, enemy_speed: 260 }
    } else if i == 12 {
        LevelInfo { index: 12, player_color_side: 5, enemy_wave_time: 1600, enemy_wave_amount: 1, enemy_speed: 300 }
    } else if i == 13 {
        LevelInfo { index: 13, player_color_side: 6, enemy_wave_time: 2400, enemy_wave_amount: 1, enemy_speed: 256 }
    } else if i == 14 {
        LevelInfo { index: 14, player_color_side: 6, enemy_wave_time: 3000, enemy_wave_amount: 2, enemy_speed: 256 }
    } else {
        LevelInfo { index: 15, player_color_side: 6, enemy_wave_time: 2000, enemy_wave_amount: 2, enemy_speed: 290 }
    }
}

/// A row of the table has the row's own position as its index, a sector
/// count between two and six, at least one enemy per wave, and a
/// positive wave interval.
pub proof fn lemma_level_table_wf(i: int)
    requires
        0 <= i < 16,
    ensures
        level_table(i).index == i,
        2 <= level_table(i).player_color_side <= 6,
        1 <= level_table(i).enemy_wave_amount,
        1 <= level_table(i).enemy_wave_time,
{
}

/// Build the full level table, in index order.
pub fn level_info_init() -> (levels: Vec<LevelInfo>)
    ensures
        levels@.len() == 16,
        forall|i: int| 0 <= i < 16 ==> levels@[i] == level_table(i),
{
    let mut levels: Vec<LevelInfo> = Vec::new();
    levels.push(LevelInfo { index: 0, player_color_side: 2, enemy_wave_time: 3000, enemy_wave_amount: 1, enemy_speed: 256 });
    levels.push(LevelInfo { index: 1, player_color_side: 2, enemy_wave_time: 2000, enemy_wave_amount: 1, enemy_speed: 256 });
    levels.push(LevelInfo { index: 2, player_color_side: 2, enemy_wave_time: 2000, enemy_wave_amount: 1, enemy_speed: 292 });
    levels.push(LevelInfo { index: 3, player_color_side: 3, enemy_wave_time: 2000, enemy_wave_amount: 1, enemy_speed: 292 });
    levels.push(LevelInfo { index: 4, player_color_side: 3, enemy_wave_time: 1600, enemy_wave_amount: 1, enemy_speed: 292 });
    levels.push(LevelInfo { index: 5, player_color_side: 3, enemy_wave_time: 2000, enemy_wave_amount: 2, enemy_speed: 292 });
    levels.push(LevelInfo { index: 6, player_color_side: 4, enemy_wave_time: 2200, enemy_wave_amount: 1, enemy_speed: 292 });
    levels.push(LevelInfo { index: 7, player_color_side: 4, enemy_wave_time: 2500, enemy_wave_amount: 2, enemy_speed: 256 });
    levels.push(LevelInfo { index: 8, player_color_side: 4, enemy_wave_time: 2000, enemy_wave_amount: 2, enemy_speed: 288 });
    levels.push(LevelInfo { index: 9, player_color_side: 4, enemy_wave_time: 1700, enemy_wave_amount: 2, enemy_speed: 300 });
    levels.push(LevelInfo { index: 10, player_color_side: 5, enemy_wave_time: 2000, enemy_wave_amount: 1, enemy_speed: 280 });
    levels.push(LevelInfo { index: 11, player_color_side: 5, enemy_wave_time: 1800, enemy_wave_amount: 2, enemy_speed: 260 });
    levels.push(LevelInfo { index: 12, player_color_side: 5, enemy_wave_time: 1600, enemy_wave_amount: 1, enemy_speed: 300 });
    levels.push(LevelInfo { index: 13, player_color_side: 6, enemy_wave_time: 2400, enemy_wave_amount: 1, enemy_speed: 256 });
    levels.push(LevelInfo { index: 14, player_color_side: 6, enemy_wave_time: 3000, enemy_wave_amount: 2, enemy_speed: 256 });
    levels.push(LevelInfo { index: 15, player_color_side: 6, enemy_wave_time: 2000, enemy_wave_amount: 2, enemy_speed: 290 });
    levels
}

} // verus!
