//! The live game state and the level-progression step.
use vstd::prelude::*;
use crate::level::{LevelInfo, level_table};
use crate::enemy::EnemySpawn;

verus! {

/// The session-wide game state: the current level's tuning, the wave
/// counters, and the run's flags.  Times are in milliseconds and speeds
/// in units per second.
#[derive(Clone, Copy, Debug)]
pub struct GameInfo {
    /// Number of color sectors the player currently shows.
    pub player_color_side: u8,
    /// Interval between waves, in milliseconds.
    pub enemy_wave_time: u32,
    /// Enemies spawned by each wave.
    pub enemy_wave_amount: u8,
    /// Waves that make up one level.
    pub enemy_wave_total: u8,
    /// Enemies still to resolve before the level advances.
    pub enemy_wave_current: u32,
    /// Waves spawned so far in this level.
    pub enemy_wave_spawned: u8,
    /// Enemy flight speed, in units per second.
    pub enemy_speed: u32,
    /// A level just ended; consumed by the player-mesh rebuild.
    pub wave_ended: bool,
    /// Index of the current level.
    pub level: u8,
    /// The last level has been reached; the next advance ends the run.
    pub end: bool,
    /// The player was hit; the run is lost.
    pub game_over: bool,
}

impl GameInfo {
    /// Basic well-formedness: at least one sector, and a wave quota
    /// that can reach zero one enemy at a time.
    pub open spec fn wf(self) -> bool {
        &&& 1 <= self.player_color_side
        &&& 1 <= self.enemy_wave_amount
        &&& 1 <= self.enemy_wave_total
    }
}

/// The state a fresh session starts in: level 0's tuning, a full quota
/// of eight single-enemy waves, and all flags down.
pub open spec fn initial_game_info() -> GameInfo {
    GameInfo {
        player_color_side: 2,
        enemy_wave_time: 3000,
        enemy_wave_amount: 1,
        enemy_wave_total: 8,
        enemy_wave_current: 8,
        enemy_wave_spawned: 0,
        enemy_speed: 256,
        wave_ended: false,
        level: 0,
        end: false,
        game_over: false,
    }
}

/// Build the state a fresh session starts in.
pub fn game_info_init() -> (info: GameInfo)
    ensures
        info == initial_game_info(),
        info.wf(),
{
    GameInfo {
        player_color_side: 2,
        enemy_wave_time: 3000,
        enemy_wave_amount: 1,
        enemy_wave_total: 8,
        enemy_wave_current: 8,
        enemy_wave_spawned: 0,
        enemy_speed: 256,
        wave_ended: false,
        level: 0,
        end: false,
        game_over: false,
    }
}

/// The state after one level advance: the level index goes up by one;
/// if the new index is in the table, its tuning is copied in, otherwise
/// the tuning stays; reaching the last table index raises the end flag;
/// the enemy quota is recomputed as waves times enemies per wave; the
/// waves-spawned count restarts; and the wave-ended flag is raised for
/// the mesh rebuild.
pub open spec fn advance(pre: GameInfo) -> GameInfo {
    let lvl = pre.level as int + 1;
    let sides = if 0 <= lvl < 16 { level_table(lvl).player_color_side } else { pre.player_color_side };
    let speed = if 0 <= lvl < 16 { level_table(lvl).enemy_speed } else { pre.enemy_speed };
    let time = if 0 <= lvl < 16 { level_table(lvl).enemy_wave_time } else { pre.enemy_wave_time };
    let amount = if 0 <= lvl < 16 { level_table(lvl).enemy_wave_amount } else { pre.enemy_wave_amount };
    GameInfo {
        player_color_side: sides,
        enemy_wave_time: time,
        enemy_wave_amount: amount,
        enemy_wave_total: pre.enemy_wave_total,
        enemy_wave_current: ((pre.enemy_wave_total as int) * (amount as int)) as u32,
        enemy_wave_spawned: 0,
        enemy_speed: speed,
        wave_ended: true,
        level: lvl as u8,
        end: pre.end || lvl == 15,
        game_over: pre.game_over,
    }
}

/// The level-progression step.  When the remaining-enemy count has
/// reached zero the state advances to the next level and the wave
/// countdown is wound back up; otherwise the step is a no-op.  The
/// result says whether the run just finished, so the caller can show
/// its congratulations exactly once.
pub fn game_info_update(info: &mut GameInfo, spawner: &mut EnemySpawn, levels: &Vec<LevelInfo>) -> (congrats: bool)
    requires
        old(info).enemy_wave_current == 0 ==> old(info).level < 255,
        levels@.len() == 16,
        forall|i: int| 0 <= i < 16 ==> levels@[i] == level_table(i),
    ensures
        congrats == (old(info).enemy_wave_current == 0 && old(info).end),
        old(info).enemy_wave_current == 0 ==> {
            &&& *final(info) == advance(*old(info))
            &&& final(spawner).timer == old(spawner).timer.after_reset()
        },
        old(info).enemy_wave_current != 0 ==> {
            &&& *final(info) == *old(info)
            &&& *final(spawner) == *old(spawner)
        },
{
    if info.enemy_wave_current == 0 {
        let congrats = info.end;

        info.level = info.level + 1;

        if info.level < 16 {
            let row = levels[info.level as usize];
            info.player_color_side = row.player_color_side;
            info.enemy_speed = row.enemy_speed;
            info.enemy_wave_time = row.enemy_wave_time;
            info.enemy_wave_amount = row.enemy_wave_amount;
        }

        if info.level == 15 {
            info.end = true;
        }

        spawner.timer.reset();

        proof {
            assert((info.enemy_wave_total as int) * (info.enemy_wave_amount as int) <= 255 * 255) by (nonlinear_arith)
                requires
                    info.enemy_wave_total <= 255,
                    info.enemy_wave_amount <= 255,
            ;
        }

        info.enemy_wave_current = (info.enemy_wave_total as u32) * (info.enemy_wave_amount as u32);

        info.enemy_wave_spawned = 0;

        info.wave_ended = true;

        congrats
    } else {
        false
    }
}

/// Level 0's quota holds from the start: the initial remaining-enemy
/// count is the number of waves times level 0's enemies per wave.
pub proof fn lemma_initial_quota()
    ensures
        initial_game_info().enemy_wave_current
            == initial_game_info().enemy_wave_total * level_table(0).enemy_wave_amount,
{
}

/// After an advance the remaining-enemy quota is exactly the number of
/// waves in a level times the new level's enemies per wave.
pub proof fn lemma_advance_sets_quota(pre: GameInfo)
    requires
        pre.level < 15,
    ensures
        advance(pre).enemy_wave_current
            == pre.enemy_wave_total * level_table(pre.level as int + 1).enemy_wave_amount,
        advance(pre).enemy_wave_amount == level_table(pre.level as int + 1).enemy_wave_amount,
{
}

/// An advance never leaves the quota at zero, and keeps the state
/// well-formed; in particular the advance that ends the run is the
/// last one — the progression step cannot fire again on its result.
pub proof fn lemma_advance_is_not_repeated(pre: GameInfo)
    requires
        pre.wf(),
    ensures
        advance(pre).enemy_wave_current != 0,
        advance(pre).wf(),
{
    let post = advance(pre);
    assert(post.enemy_wave_amount >= 1);
    assert(
        1 <= pre.enemy_wave_total as int * post.enemy_wave_amount as int <= 255 * 255
    ) by (nonlinear_arith)
        requires
            1 <= pre.enemy_wave_total <= 255,
            1 <= post.enemy_wave_amount <= 255,
    ;
}

} // verus!
