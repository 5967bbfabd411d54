//! The sector-match collision rule and player rotation.
use sectorwave::color::{color_of_index, ObjectColor};
use sectorwave::enemy::Enemy;
use sectorwave::player::{player_check_enemy, player_rotate, sector_rotation_mdeg};
use sectorwave::state::game_info_init;

// With two sectors and the player unrotated, a red enemy's sector is the
// wrapped arc above 180000 millidegrees (after the half-turn shift), so a
// bearing of 90000 matches and a bearing of 270000 does not.

#[test]
fn matching_contact_kills_the_enemy_and_decrements() {
    let mut info = game_info_init();
    let enemy = Enemy { color: ObjectColor::RED };

    let kill = player_check_enemy(&mut info, 0, 90000, &enemy);

    assert!(kill);
    assert_eq!(info.enemy_wave_current, 7);
    assert!(!info.game_over);
}

#[test]
fn mismatched_contact_still_decrements_and_ends_the_run() {
    let mut info = game_info_init();
    let enemy = Enemy { color: ObjectColor::RED };

    let kill = player_check_enemy(&mut info, 0, 270000, &enemy);

    assert!(!kill);
    assert_eq!(info.enemy_wave_current, 7);
    assert!(info.game_over);
}

#[test]
fn wraparound_sector_includes_just_past_its_lower_bound() {
    // Sides 2, red, player unrotated: the sector's shifted bounds are
    // min = 180000 and max = 0, so the sector wraps.  A bearing whose
    // shifted angle sits just above the lower bound is inside...
    let mut info = game_info_init();
    let enemy = Enemy { color: ObjectColor::RED };
    let kill = player_check_enemy(&mut info, 0, 1, &enemy);
    assert!(kill);

    // ...and a bearing landing midway between max and min, the short
    // way around, is outside.
    let mut info = game_info_init();
    let kill = player_check_enemy(&mut info, 0, 270000, &enemy);
    assert!(!kill);
}

#[test]
fn blue_sector_matches_where_red_does_not() {
    // Sides 2, player unrotated: blue owns the other half of the circle.
    let mut info = game_info_init();
    let enemy = Enemy { color: ObjectColor::BLUE };
    let kill = player_check_enemy(&mut info, 0, 270000, &enemy);
    assert!(kill);

    let mut info = game_info_init();
    let kill = player_check_enemy(&mut info, 0, 90000, &enemy);
    assert!(!kill);
}

#[test]
fn rotating_the_player_moves_the_matching_arc() {
    // A quarter-turn of the player shifts red's matching arc by a
    // quarter turn as well.
    let mut info = game_info_init();
    let enemy = Enemy { color: ObjectColor::RED };
    let kill = player_check_enemy(&mut info, 90000, 180000, &enemy);
    assert!(kill);

    let mut info = game_info_init();
    let kill = player_check_enemy(&mut info, 90000, 0, &enemy);
    assert!(!kill);
}

#[test]
fn scenario_one_hit_ends_the_run_and_stops_spawning() {
    let mut info = game_info_init();
    let mut spawner = sectorwave::enemy::enemy_spawn_timer_init();
    let enemy = Enemy { color: ObjectColor::RED };

    let kill = player_check_enemy(&mut info, 0, 270000, &enemy);
    assert!(!kill);
    assert!(info.game_over);

    // However long the countdown runs from now on, no wave fires.
    for _ in 0..5 {
        let count = sectorwave::enemy::enemy_spawn_timer(&mut spawner, &mut info, 10000);
        assert_eq!(count, 0);
    }
    assert_eq!(info.enemy_wave_spawned, 0);
}

#[test]
fn rotation_rate_and_cancellation() {
    // One second of rotate-left turns about one radian counterclockwise.
    assert_eq!(player_rotate(0, true, false, 1000), 57296);
    // Rotate-right turns the other way.
    assert_eq!(player_rotate(0, false, true, 1000), 360000 - 57296);
    // Both inputs held cancel out, as does neither.
    assert_eq!(player_rotate(123456, true, true, 1000), 123456);
    assert_eq!(player_rotate(123456, false, false, 1000), 123456);
    // The result stays reduced modulo a full turn.
    assert_eq!(player_rotate(359999, true, false, 1000), (359999 + 57296) % 360000);
}

#[test]
fn mesh_sector_positions_and_palette() {
    assert_eq!(sector_rotation_mdeg(0, 6), 0);
    assert_eq!(sector_rotation_mdeg(1, 6), 60000);
    assert_eq!(sector_rotation_mdeg(5, 6), 300000);
    assert_eq!(sector_rotation_mdeg(1, 2), 180000);

    assert_eq!(color_of_index(0), ObjectColor::RED);
    assert_eq!(color_of_index(1), ObjectColor::BLUE);
    assert_eq!(color_of_index(2), ObjectColor::GREEN);
    assert_eq!(color_of_index(3), ObjectColor::PINK);
    assert_eq!(color_of_index(4), ObjectColor::YELLOW);
    assert_eq!(color_of_index(5), ObjectColor::CYAN);
    // Past the palette the lookup falls back to the first entry.
    assert_eq!(color_of_index(9), ObjectColor::RED);
}
