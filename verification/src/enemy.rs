//! Enemies, the wave-spawn countdown timer, and the scheduler step that
//! decides when a wave fires and how many enemies it brings.
use vstd::prelude::*;
use crate::color::{ObjectColor, palette_color, spawn_index, color_of_index};
use crate::state::GameInfo;

verus! {

/// An enemy's game-relevant state: its color tag.  Position and motion
/// live with the engine.
#[derive(Clone, Copy, Debug)]
pub struct Enemy {
    pub color: ObjectColor,
}

/// A one-shot countdown over whole milliseconds.  Once it finishes it
/// stays finished until it is reset; `tick` reports true only on the
/// tick that crosses zero.
#[derive(Clone, Copy, Debug)]
pub struct WaveTimer {
    pub duration_ms: u32,
    pub remaining_ms: u32,
    pub finished: bool,
}

impl WaveTimer {
    /// The timer after `dt` milliseconds pass.
    pub open spec fn after_tick(self, dt: int) -> WaveTimer {
        if self.finished {
            self
        } else if dt >= self.remaining_ms {
            WaveTimer { remaining_ms: 0, finished: true, ..self }
        } else {
            WaveTimer { remaining_ms: (self.remaining_ms - dt) as u32, ..self }
        }
    }

    /// A tick of `dt` milliseconds crosses zero.
    pub open spec fn just_finishes(self, dt: int) -> bool {
        !self.finished && dt >= self.remaining_ms
    }

    /// The timer wound back up to its full duration.
    pub open spec fn after_reset(self) -> WaveTimer {
        WaveTimer { remaining_ms: self.duration_ms, finished: false, ..self }
    }

    /// A fresh timer that runs for `duration_ms`.
    pub fn new(duration_ms: u32) -> (t: WaveTimer)
        ensures
            t == (WaveTimer { duration_ms, remaining_ms: duration_ms, finished: false }),
    {
        WaveTimer { duration_ms, remaining_ms: duration_ms, finished: false }
    }

    /// Advance the countdown by `dt_ms`; true exactly when this tick
    /// crosses zero.
    pub fn tick(&mut self, dt_ms: u32) -> (just_finished: bool)
        ensures
            *final(self) == old(self).after_tick(dt_ms as int),
            just_finished == old(self).just_finishes(dt_ms as int),
    {
        if self.finished {
            false
        } else if dt_ms >= self.remaining_ms {
            self.remaining_ms = 0;
            self.finished = true;
            true
        } else {
            self.remaining_ms = self.remaining_ms - dt_ms;
            false
        }
    }

    /// Wind the countdown back up to its full duration.
    pub fn reset(&mut self)
        ensures
            *final(self) == old(self).after_reset(),
    {
        self.remaining_ms = self.duration_ms;
        self.finished = false;
    }

    /// Change the full duration without touching the running countdown.
    pub fn set_duration(&mut self, duration_ms: u32)
        ensures
            *final(self) == (WaveTimer { duration_ms, ..*old(self) }),
    {
        self.duration_ms = duration_ms;
    }
}

/// The wave scheduler's countdown.
#[derive(Clone, Copy, Debug)]
pub struct EnemySpawn {
    pub timer: WaveTimer,
}

/// The scheduler's initial countdown: level 0's three-second wave
/// interval, so the first wave arrives one interval into the run.
pub fn enemy_spawn_timer_init() -> (s: EnemySpawn)
    ensures
        s == (EnemySpawn { timer: WaveTimer { duration_ms: 3000, remaining_ms: 3000, finished: false } }),
{
    EnemySpawn { timer: WaveTimer::new(3000) }
}

/// A wave fires on this tick: the countdown crosses zero, the level's
/// wave quota is not yet spent, and the game is neither over nor won.
pub open spec fn spawn_fires(spawner: EnemySpawn, info: GameInfo, dt_ms: int) -> bool {
    spawner.timer.just_finishes(dt_ms)
        && info.enemy_wave_spawned < info.enemy_wave_total
        && !info.game_over
        && !info.end
}

/// One scheduler step: advance the countdown by the frame's elapsed
/// time and decide how many enemies to spawn now.  When a wave fires
/// the countdown restarts at the level's wave interval and the
/// waves-spawned count goes up by one; otherwise nothing changes but
/// the countdown itself.
pub fn enemy_spawn_timer(spawner: &mut EnemySpawn, info: &mut GameInfo, dt_ms: u32) -> (spawn_count: u8)
    ensures
        spawn_fires(*old(spawner), *old(info), dt_ms as int) ==> {
            &&& spawn_count == old(info).enemy_wave_amount
            &&& *final(spawner) == (EnemySpawn {
                timer: WaveTimer {
                    duration_ms: old(info).enemy_wave_time,
                    remaining_ms: old(info).enemy_wave_time,
                    finished: false,
                },
            })
            &&& *final(info) == (GameInfo {
                enemy_wave_spawned: (old(info).enemy_wave_spawned + 1) as u8,
                ..*old(info)
            })
        },
        !spawn_fires(*old(spawner), *old(info), dt_ms as int) ==> {
            &&& spawn_count == 0
            &&& *final(spawner) == (EnemySpawn { timer: old(spawner).timer.after_tick(dt_ms as int) })
            &&& *final(info) == *old(info)
        },
        old(info).game_over ==> spawn_count == 0,
{
    let just_finished = spawner.timer.tick(dt_ms);

    if just_finished && info.enemy_wave_spawned < info.enemy_wave_total && !info.game_over && !info.end {
        let amount = info.enemy_wave_amount;

        spawner.timer.set_duration(info.enemy_wave_time);
        spawner.timer.reset();

        info.enemy_wave_spawned = info.enemy_wave_spawned + 1;

        amount
    } else {
        0
    }
}

/// Relies on rand::random: a uniformly distributed `u32`.  Nothing is
/// assumed of the value beyond its type.
pub assume_specification<T>[ rand::random::<T> ]() -> (r: T)
    where
        rand::distributions::Standard: rand::distributions::Distribution<T>,
;

/// The color a spawn draw yields: the draw, taken as a fraction of the
/// full 32-bit range, is scaled to an ordinal below `colors` and mapped
/// through the spawn palette.
pub fn enemy_color_of_draw(draw: u32, colors: u8) -> (c: ObjectColor)
    requires
        1 <= colors,
    ensures
        c == palette_color((draw as int * colors as int) / 4294967296),
        spawn_index(c) < colors,
{
    proof {
        assert((draw as int) * (colors as int) < 4294967296 * (colors as int)) by (nonlinear_arith)
            requires
                draw < 4294967296,
                1 <= colors < 256,
        ;
    }

    let scaled: u64 = (draw as u64) * (colors as u64);
    let color_index_wide: u64 = scaled / 4294967296u64;

    proof {
        assert(color_index_wide < colors) by (nonlinear_arith)
            requires
                scaled < 4294967296 * (colors as int),
                color_index_wide == scaled as int / 4294967296,
        ;
    }

    let color_index: u8 = color_index_wide as u8;

    color_of_index(color_index)
}

/// Draw a random palette color for a freshly spawned enemy, uniformly
/// among the first `colors` palette entries.  Whatever the draw, the
/// result's spawn ordinal stays below `colors`.
pub fn enemy_spawn_color(colors: u8) -> (c: ObjectColor)
    requires
        1 <= colors,
    ensures
        spawn_index(c) < colors,
{
    let draw: u32 = rand::random::<u32>();

    enemy_color_of_draw(draw, colors)
}

} // verus!
