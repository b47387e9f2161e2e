//! Tests for the collision resolver, the motion integrator and the stroke
//! input controller.

use golf_core::collision::{check_for_collision_with_walls, collide, Collision, Wall};
use golf_core::geom::{Transform, Vec2, Vec3};
use golf_core::misc::get_dist;
use golf_core::stroke::{input, update_cursor_coords, BarColor, CursorComponent, Player, PowerBar};
use golf_core::motion::ball_movement;

fn bar() -> PowerBar {
    PowerBar {
        translation: Vec3 { x: 0, y: 0, z: -2000 },
        scale_y: 1000,
        color: BarColor::Indigo,
    }
}

fn ball_at(x: i64, y: i64) -> Transform {
    Transform { translation: Vec3 { x, y, z: 0 }, scale: Vec2 { x: 1000, y: 1000 } }
}

#[test]
fn collide_reports_the_straddled_side() {
    let wall_pos = Vec3 { x: 0, y: 0, z: 0 };
    let wall_size = Vec2 { x: 30_000, y: 30_000 };
    let ball_size = Vec2 { x: 15_000, y: 15_000 };
    // Ball to the right of the wall's center, straddling its right edge:
    // the wall straddles the ball's left edge.
    let r = collide(wall_pos, wall_size, Vec3 { x: 20_000, y: 0, z: 0 }, ball_size);
    assert_eq!(r, Some(Collision::Left));
    let r = collide(wall_pos, wall_size, Vec3 { x: -20_000, y: 0, z: 0 }, ball_size);
    assert_eq!(r, Some(Collision::Right));
    let r = collide(wall_pos, wall_size, Vec3 { x: 0, y: 20_000, z: 0 }, ball_size);
    assert_eq!(r, Some(Collision::Bottom));
    let r = collide(wall_pos, wall_size, Vec3 { x: 0, y: -20_000, z: 0 }, ball_size);
    assert_eq!(r, Some(Collision::Top));
}

#[test]
fn collide_reports_nothing_without_overlap() {
    let r = collide(
        Vec3 { x: 0, y: 0, z: 0 },
        Vec2 { x: 30_000, y: 30_000 },
        Vec3 { x: 5_000_000, y: 0, z: 0 },
        Vec2 { x: 15_000, y: 15_000 },
    );
    assert_eq!(r, None);
}

#[test]
fn predicted_position_inside_a_wall_flips_both_axes() {
    let mut player = Player {
        vel: 10_000,
        dir: Vec3 { x: 1000, y: 500, z: 0 },
        first_mouse_pos: Vec3 { x: 0, y: 0, z: 0 },
        selected: false,
    };
    // Predicted position after 100 ms: (1000, 500, 0), well inside the wall.
    let walls = vec![Wall {
        translation: Vec3 { x: 0, y: 0, z: 4000 },
        size: Vec2 { x: 100_000, y: 100_000 },
    }];
    check_for_collision_with_walls(&mut player, Vec3 { x: 0, y: 0, z: 0 }, &walls, 100);
    assert_eq!(player.dir, Vec3 { x: -1000, y: -500, z: 0 });
    assert_eq!(player.vel, 10_000);
}

#[test]
fn distant_wall_leaves_direction_unchanged() {
    let mut player = Player {
        vel: 10_000,
        dir: Vec3 { x: 1000, y: 500, z: 0 },
        first_mouse_pos: Vec3 { x: 0, y: 0, z: 0 },
        selected: false,
    };
    let walls = vec![Wall {
        translation: Vec3 { x: 5_000_000, y: 0, z: 4000 },
        size: Vec2 { x: 30_000, y: 30_000 },
    }];
    check_for_collision_with_walls(&mut player, Vec3 { x: 0, y: 0, z: 0 }, &walls, 100);
    assert_eq!(player.dir, Vec3 { x: 1000, y: 500, z: 0 });
}

#[test]
fn velocity_decays_by_one_unit_per_tick_then_rests() {
    let mut transform = ball_at(0, 0);
    let mut player = Player {
        vel: 3_500,
        dir: Vec3 { x: 0, y: 0, z: 0 },
        first_mouse_pos: Vec3 { x: 0, y: 0, z: 0 },
        selected: false,
    };
    ball_movement(&mut transform, &mut player, 16);
    assert_eq!(player.vel, 2_500);
    ball_movement(&mut transform, &mut player, 16);
    assert_eq!(player.vel, 1_500);
    ball_movement(&mut transform, &mut player, 16);
    assert_eq!(player.vel, 500);
    // The input pass pins a velocity inside the rest band to exactly zero.
    let cursor = CursorComponent { translation: Vec3 { x: 0, y: 0, z: -1000 } };
    let mut b = bar();
    let mut strokes: u16 = 0;
    input(&mut player, &transform, &cursor, &mut b, &mut strokes, false, false, 16);
    assert_eq!(player.vel, 0);
    // At rest the integrator neither moves the ball nor the velocity.
    let before = transform.translation;
    ball_movement(&mut transform, &mut player, 16);
    assert_eq!(player.vel, 0);
    assert_eq!(transform.translation, before);
}

#[test]
fn integration_displaces_by_the_exact_product() {
    let mut transform = ball_at(0, 0);
    let mut player = Player {
        vel: 10_000,
        dir: Vec3 { x: 1000, y: -2000, z: 0 },
        first_mouse_pos: Vec3 { x: 0, y: 0, z: 0 },
        selected: false,
    };
    // 10_000 * 1000 * 16 * 20 / 1_000_000 = 3_200 milli units.
    ball_movement(&mut transform, &mut player, 16);
    assert_eq!(transform.translation.x, 3_200);
    assert_eq!(transform.translation.y, -6_400);
    assert_eq!(transform.translation.z, 0);
    assert_eq!(player.vel, 9_000);
}

#[test]
fn press_and_release_without_movement_counts_one_stroke() {
    let mut player = Player::default();
    let transform = ball_at(0, 0);
    let cursor = CursorComponent { translation: Vec3 { x: 7_000, y: 9_000, z: -1000 } };
    let mut b = bar();
    let mut strokes: u16 = 0;
    input(&mut player, &transform, &cursor, &mut b, &mut strokes, true, false, 16);
    assert!(player.selected);
    assert_eq!(strokes, 0);
    assert_eq!(player.first_mouse_pos, cursor.translation);
    input(&mut player, &transform, &cursor, &mut b, &mut strokes, false, true, 16);
    assert_eq!(strokes, 1);
    assert!(!player.selected);
    assert_eq!(player.vel, 0);
    assert_eq!(player.dir, Vec3 { x: 0, y: 0, z: 0 });
}

#[test]
fn release_after_a_drag_imparts_velocity_and_direction() {
    let mut player = Player::default();
    let transform = ball_at(0, 0);
    let mut cursor = CursorComponent { translation: Vec3 { x: 0, y: 0, z: -1000 } };
    let mut b = bar();
    let mut strokes: u16 = 3;
    input(&mut player, &transform, &cursor, &mut b, &mut strokes, true, false, 16);
    // Drag 3.6 units to the left, then release.
    update_cursor_coords(&mut cursor, Some(Vec2 { x: -3_600, y: 0 }));
    assert_eq!(cursor.translation, Vec3 { x: -3_600, y: 0, z: -1000 });
    input(&mut player, &transform, &cursor, &mut b, &mut strokes, false, true, 100);
    assert_eq!(strokes, 4);
    // Pull 3_600 milli; distance over 60 ms is 60_000; over a 100 ms tick
    // that is 6_000, inside the clamp.
    assert_eq!(player.vel, 6_000);
    // Direction is the pull over 360, rounded toward zero.
    assert_eq!(player.dir, Vec3 { x: 10, y: 0, z: 0 });
}

#[test]
fn pull_distance_is_clamped_at_the_maximum() {
    let mut player = Player::default();
    let transform = ball_at(0, 0);
    let mut cursor = CursorComponent { translation: Vec3 { x: 0, y: 0, z: -1000 } };
    let mut b = bar();
    let mut strokes: u16 = 0;
    input(&mut player, &transform, &cursor, &mut b, &mut strokes, true, false, 16);
    update_cursor_coords(&mut cursor, Some(Vec2 { x: -36_000, y: 0 }));
    input(&mut player, &transform, &cursor, &mut b, &mut strokes, false, true, 100);
    assert_eq!(player.vel, 55_000);
    assert_eq!(player.dir.x, 100);
}

#[test]
fn direction_division_truncates_toward_zero() {
    let mut player = Player::default();
    let transform = ball_at(0, 0);
    let mut cursor = CursorComponent { translation: Vec3 { x: 0, y: 0, z: -1000 } };
    let mut b = bar();
    let mut strokes: u16 = 0;
    input(&mut player, &transform, &cursor, &mut b, &mut strokes, true, false, 16);
    update_cursor_coords(&mut cursor, Some(Vec2 { x: 3_650, y: -3_650 }));
    input(&mut player, &transform, &cursor, &mut b, &mut strokes, false, true, 100);
    // -3_650 / 360 truncates to -10, not -11; 3_650 / 360 to 10.
    assert_eq!(player.dir.x, -10);
    assert_eq!(player.dir.y, 10);
}

#[test]
fn held_gesture_drives_the_power_bar() {
    let mut player = Player::default();
    let transform = ball_at(100_000, 50_000);
    let mut cursor = CursorComponent { translation: Vec3 { x: 0, y: 0, z: -1000 } };
    let mut b = bar();
    let mut strokes: u16 = 0;
    input(&mut player, &transform, &cursor, &mut b, &mut strokes, true, false, 16);
    // The bar anchors beside the ball on the press.
    assert_eq!(b.translation, Vec3 { x: 60_000, y: 50_000, z: 0 });
    update_cursor_coords(&mut cursor, Some(Vec2 { x: -36_000, y: 0 }));
    input(&mut player, &transform, &cursor, &mut b, &mut strokes, false, false, 100);
    // Clamped pull 55_000 over 5 is 11_000, above the strength threshold.
    assert_eq!(b.scale_y, 11_000);
    assert_eq!(b.color, BarColor::LimeGreen);
    assert_eq!(b.translation.z, 2000);
    assert_eq!(strokes, 0);
    assert!(player.selected);
}

#[test]
fn weak_pull_shows_the_low_tier_color() {
    let mut player = Player::default();
    let transform = ball_at(0, 0);
    let mut cursor = CursorComponent { translation: Vec3 { x: 0, y: 0, z: -1000 } };
    let mut b = bar();
    let mut strokes: u16 = 0;
    input(&mut player, &transform, &cursor, &mut b, &mut strokes, true, false, 16);
    update_cursor_coords(&mut cursor, Some(Vec2 { x: -3_600, y: 0 }));
    input(&mut player, &transform, &cursor, &mut b, &mut strokes, false, false, 100);
    assert_eq!(b.scale_y, 1_200);
    assert_eq!(b.color, BarColor::DarkGreen);
}

#[test]
fn absent_cursor_sample_changes_nothing() {
    let mut cursor = CursorComponent { translation: Vec3 { x: 123, y: 456, z: -1000 } };
    update_cursor_coords(&mut cursor, None);
    assert_eq!(cursor.translation, Vec3 { x: 123, y: 456, z: -1000 });
}

#[test]
fn get_dist_is_the_scaled_euclidean_distance() {
    let a = Vec3 { x: 3_000, y: 4_000, z: 7 };
    let b = Vec3 { x: 0, y: 0, z: -5 };
    // sqrt(3000^2 + 4000^2) = 5000; 5000 * 1000 / 60 = 83_333.
    assert_eq!(get_dist(a, b, 60), 83_333);
    assert_eq!(get_dist(a, a, 60), 0);
}

#[test]
fn press_is_refused_while_the_ball_moves() {
    let mut player = Player {
        vel: 20_000,
        dir: Vec3 { x: 100, y: 0, z: 0 },
        first_mouse_pos: Vec3 { x: 0, y: 0, z: 0 },
        selected: false,
    };
    let transform = ball_at(0, 0);
    let cursor = CursorComponent { translation: Vec3 { x: 0, y: 0, z: -1000 } };
    let mut b = bar();
    let mut strokes: u16 = 0;
    input(&mut player, &transform, &cursor, &mut b, &mut strokes, true, false, 16);
    assert!(!player.selected);
    assert_eq!(strokes, 0);
    assert_eq!(player.vel, 20_000);
}
