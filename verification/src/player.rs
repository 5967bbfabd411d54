//! The player's side of the rules: the sector-match collision check and
//! the rotation step.  The player's orientation and enemy bearings are
//! millidegree angles already reduced modulo a full turn; the engine
//! shell converts from its own angle representation at the edge.
use vstd::prelude::*;
use crate::{TURN_MDEG, HALF_TURN_MDEG};
use crate::angle::in_sector;
use crate::color::check_index;
use crate::enemy::Enemy;
use crate::state::GameInfo;

verus! {

/// Angular rate of the player's rotation: one radian per second,
/// rounded to whole millidegrees.
pub const ROTATE_MDEG_PER_SEC: u32 = 57296;

/// A contacting enemy is killed rather than the player: the enemy's
/// bearing from the player falls inside the angular sector that carries
/// the enemy's color, given the player's rotation and the number of
/// sectors.  Bounds and bearing are shifted by half a turn and reduced
/// modulo a full turn, and the sector test handles the wrapped case.
pub open spec fn enemy_killed(player_angle: int, sides: int, color: crate::color::ObjectColor, bearing: int) -> bool {
    let range = TURN_MDEG as int / sides;
    let idx = check_index(color);
    let min = (player_angle + range * idx + HALF_TURN_MDEG) % (TURN_MDEG as int);
    let max = (player_angle + range * (idx + 1) + HALF_TURN_MDEG) % (TURN_MDEG as int);
    let ang = (bearing + HALF_TURN_MDEG) % (TURN_MDEG as int);
    in_sector(ang, min, max)
}

/// Resolve one enemy that is in contact with the player.  Exactly one
/// of two outcomes fires: the enemy is killed (its bearing matches its
/// color's sector) or the player is hit, which ends the run.  Either
/// way the enemy is gone and the remaining-enemy count drops by one;
/// the caller despawns it and, on a hit, shows the game-over message.
pub fn player_check_enemy(
    info: &mut GameInfo,
    player_angle_mdeg: u32,
    enemy_bearing_mdeg: u32,
    enemy: &Enemy,
) -> (kill: bool)
    requires
        old(info).wf(),
        1 <= old(info).enemy_wave_current,
        player_angle_mdeg < TURN_MDEG,
        enemy_bearing_mdeg < TURN_MDEG,
    ensures
        kill == enemy_killed(
            player_angle_mdeg as int,
            old(info).player_color_side as int,
            enemy.color,
            enemy_bearing_mdeg as int,
        ),
        *final(info) == (GameInfo {
            enemy_wave_current: (old(info).enemy_wave_current - 1) as u32,
            game_over: old(info).game_over || !kill,
            ..*old(info)
        }),
{
    let angle_range: u32 = TURN_MDEG / (info.player_color_side as u32);

    let angle_index: u32 = match enemy.color {
        crate::color::ObjectColor::RED => 0,
        crate::color::ObjectColor::BLUE => 1,
        crate::color::ObjectColor::GREEN => 2,
        crate::color::ObjectColor::PINK => 3,
        crate::color::ObjectColor::CYAN => 4,
        crate::color::ObjectColor::YELLOW => 5,
    };

    proof {
        assert(angle_range <= TURN_MDEG) by (nonlinear_arith)
            requires
                angle_range == TURN_MDEG as int / (info.player_color_side as int),
                1 <= info.player_color_side,
        ;
        assert(angle_range * angle_index <= TURN_MDEG as int * 5) by (nonlinear_arith)
            requires
                angle_range <= TURN_MDEG,
                angle_index <= 5,
        ;
        assert(angle_range * (angle_index + 1) <= TURN_MDEG as int * 6) by (nonlinear_arith)
            requires
                angle_range <= TURN_MDEG,
                angle_index <= 5,
        ;
    }

    let check_angle_min: u32 = (player_angle_mdeg + angle_range * angle_index + HALF_TURN_MDEG) % TURN_MDEG;
    let check_angle_max: u32 = (player_angle_mdeg + angle_range * (angle_index + 1) + HALF_TURN_MDEG) % TURN_MDEG;

    let check_angle: u32 = (enemy_bearing_mdeg + HALF_TURN_MDEG) % TURN_MDEG;

    let kill: bool = if check_angle_max > check_angle_min {
        check_angle > check_angle_min && check_angle < check_angle_max
    } else {
        check_angle > check_angle_min || check_angle < check_angle_max
    };

    if !kill {
        info.game_over = true;
    }

    info.enemy_wave_current = info.enemy_wave_current - 1;

    kill
}

/// One rotation step of the player, over a frame of `dt_ms`
/// milliseconds: the rotation in millidegrees the frame ends with.
/// Holding rotate-left turns counterclockwise, rotate-right clockwise,
/// and holding both cancels out.
pub open spec fn rotated(rotation: int, left: bool, right: bool, dt_ms: int) -> int {
    let step = (ROTATE_MDEG_PER_SEC * dt_ms / 1000) % (TURN_MDEG as int);
    if left == right {
        rotation
    } else if left {
        (rotation + step) % (TURN_MDEG as int)
    } else {
        (rotation + TURN_MDEG - step) % (TURN_MDEG as int)
    }
}

/// Apply one frame of rotation input to the player's orientation.
pub fn player_rotate(rotation_mdeg: u32, left_held: bool, right_held: bool, dt_ms: u32) -> (r: u32)
    requires
        rotation_mdeg < TURN_MDEG,
    ensures
        r == rotated(rotation_mdeg as int, left_held, right_held, dt_ms as int),
        r < TURN_MDEG,
{
    proof {
        assert((ROTATE_MDEG_PER_SEC as int) * (dt_ms as int) < 57297 * 4294967296) by (nonlinear_arith)
            requires
                dt_ms < 4294967296,
        ;
    }

    let step_wide: u64 = (ROTATE_MDEG_PER_SEC as u64) * (dt_ms as u64) / 1000 % (TURN_MDEG as u64);
    let step: u32 = step_wide as u32;

    if left_held == right_held {
        rotation_mdeg
    } else if left_held {
        (rotation_mdeg + step) % TURN_MDEG
    } else {
        (rotation_mdeg + TURN_MDEG - step) % TURN_MDEG
    }
}

/// Angular position of sector `i` on the rebuilt player mesh: the
/// sector ordinal times the width of one sector.
pub fn sector_rotation_mdeg(i: u8, sides: u8) -> (r: u32)
    requires
        1 <= sides,
        i < sides,
    ensures
        r == i as int * (TURN_MDEG as int / sides as int),
        r < TURN_MDEG,
{
    let range: u32 = TURN_MDEG / (sides as u32);

    proof {
        assert(range * i < TURN_MDEG) by (nonlinear_arith)
            requires
                range == TURN_MDEG as int / sides as int,
                i < sides,
                1 <= sides <= 255,
                TURN_MDEG == 360000,
        ;
    }

    range * (i as u32)
}

} // verus!
