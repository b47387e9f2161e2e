//! Tests for the level catalog: fallback layout, lockstep wall sequences,
//! and the exact geometry of the defined levels.

use golf_core::levels::{get_level, Level};

const HALF: i64 = 325_000;

#[test]
fn out_of_range_index_yields_border_layout() {
    let fallback: Level = get_level(7, HALF, HALF);
    let zero: Level = get_level(0, HALF, HALF);
    assert_eq!(fallback.wall_translation.len(), 4);
    assert_eq!(fallback.wall_translation, zero.wall_translation);
    assert_eq!(fallback.wall_size, zero.wall_size);
    assert_eq!(fallback.player_translation, zero.player_translation);
    assert_eq!(fallback.hole_translation, zero.hole_translation);
}

#[test]
fn far_out_of_range_index_yields_border_layout() {
    let fallback = get_level(u16::MAX, 100_000, 200_000);
    let zero = get_level(0, 100_000, 200_000);
    assert_eq!(fallback.wall_translation, zero.wall_translation);
    assert_eq!(fallback.wall_size, zero.wall_size);
}

#[test]
fn wall_sequences_have_equal_length_on_every_level() {
    for lvl in [0u16, 1, 2, 3, 4, 5, 9, 1000] {
        let l = get_level(lvl, HALF, HALF);
        assert_eq!(l.wall_translation.len(), l.wall_size.len());
    }
}

#[test]
fn border_walls_follow_the_viewport() {
    let l = get_level(0, HALF, HALF);
    assert_eq!(l.wall_translation[0].x, HALF);
    assert_eq!(l.wall_translation[1].x, -HALF);
    assert_eq!(l.wall_translation[2].y, HALF);
    assert_eq!(l.wall_translation[3].y, -HALF);
    for t in &l.wall_translation {
        assert_eq!(t.z, 4000);
    }
    assert_eq!(l.wall_size[0].x, 30_000);
    assert_eq!(l.wall_size[2].y, 30_000);
    assert_eq!(l.player_translation.x, 0);
    assert_eq!(l.player_translation.z, 3000);
    assert_eq!(l.hole_translation.y, -100_000);
}

#[test]
fn level_one_adds_one_interior_wall() {
    let l = get_level(1, HALF, HALF);
    assert_eq!(l.wall_translation.len(), 5);
    assert_eq!(l.wall_translation[4].x, 0);
    assert_eq!(l.wall_translation[4].y, -50_000);
    assert_eq!(l.wall_size[4].x, 30_000);
    assert_eq!(l.wall_size[4].y, 30_000);
}

#[test]
fn level_two_spawn_hole_and_interior_walls() {
    let l = get_level(2, HALF, HALF);
    assert_eq!(l.player_translation.x, -275_000);
    assert_eq!(l.hole_translation.x, 275_000);
    assert_eq!(l.wall_translation.len(), 6);
    assert_eq!(l.wall_size.len(), 6);
    assert_eq!(l.wall_translation[4].x, 100_000);
    assert_eq!(l.wall_translation[4].y, -100_000);
    assert_eq!(l.wall_size[4].y, 2 * HALF - 100_000);
    assert_eq!(l.wall_translation[5].x, -100_000);
    assert_eq!(l.wall_translation[5].y, 100_000);
    assert_eq!(l.wall_size[5].y, 2 * HALF + 100_000);
}

#[test]
fn level_three_moves_spawn_and_hole_together() {
    let l = get_level(3, HALF, HALF);
    assert_eq!(l.player_translation.x, HALF - 100_000);
    assert_eq!(l.hole_translation.x, HALF - 100_000);
    assert_eq!(l.hole_translation.y, -200_000);
    assert_eq!(l.wall_translation.len(), 5);
    assert_eq!(l.wall_size[4].x, 2 * HALF - 90_000);
}

#[test]
fn level_four_uses_opposite_corners() {
    let l = get_level(4, HALF, HALF);
    assert_eq!(l.player_translation.x, -HALF + 50_000);
    assert_eq!(l.player_translation.y, -HALF + 50_000);
    assert_eq!(l.hole_translation.x, HALF - 50_000);
    assert_eq!(l.hole_translation.y, HALF - 50_000);
    assert_eq!(l.wall_translation.len(), 5);
}

#[test]
fn default_level_is_empty() {
    let l = Level::default();
    assert_eq!(l.wall_translation.len(), 0);
    assert_eq!(l.wall_size.len(), 0);
    assert_eq!(l.player_translation.z, 3000);
    assert_eq!(l.hole_translation.y, -100_000);
}
