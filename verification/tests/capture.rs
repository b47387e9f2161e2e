//! Tests for the hole-capture state machine and the level progression
//! controller, including full end-to-end ticks.

use golf_core::game::{GameState, TickInput};
use golf_core::geom::{Transform, Vec2, Vec3};
use golf_core::hole::{
    check_for_collision_with_hole, Hole, LevelCount, LevelUpEvent, ShrinkTimer,
};
use golf_core::stroke::Player;
use golf_core::SENTINEL_X;

const HALF: i64 = 325_000;

fn quiet_tick(x_max: i64, y_max: i64) -> TickInput {
    TickInput {
        dt_ms: 100,
        cursor_sample: None,
        pressed: false,
        just_released: false,
        x_max,
        y_max,
    }
}

#[test]
fn shrink_timer_fires_once_per_period() {
    let mut t = ShrinkTimer { period_ms: 100, elapsed_ms: 0 };
    assert!(!t.tick(50));
    assert_eq!(t.elapsed_ms, 50);
    assert!(t.tick(60));
    assert_eq!(t.elapsed_ms, 10);
    assert!(!t.tick(80));
    assert_eq!(t.elapsed_ms, 90);
    assert!(t.tick(10));
    assert_eq!(t.elapsed_ms, 0);
}

#[test]
fn capture_completes_after_exactly_nine_firings() {
    let hole = Hole { translation: Vec3 { x: 50_000, y: -70_000, z: 0 } };
    let mut transform = Transform {
        translation: Vec3 { x: 50_000, y: -70_000, z: 0 },
        scale: Vec2 { x: 1000, y: 1000 },
    };
    let mut player = Player::default();
    let mut timer = ShrinkTimer { period_ms: 100, elapsed_ms: 0 };
    let mut lc = LevelCount(0);
    for firing in 1..=8u32 {
        let ev = check_for_collision_with_hole(
            &mut transform,
            &mut player,
            &hole,
            &mut timer,
            &mut lc,
            100,
        );
        assert!(ev.is_none(), "fired early on firing {firing}");
        assert_eq!(transform.scale.x, 1000 - 100 * firing as i64);
        assert_eq!(transform.scale.y, 1000 - 100 * firing as i64);
        assert_eq!(lc.0, 0);
        // The ball is locked onto the hole center while settling.
        assert_eq!(transform.translation, Vec3 { x: 50_000, y: -70_000, z: 3000 });
        assert_eq!(player.vel, 0);
    }
    let ev = check_for_collision_with_hole(
        &mut transform,
        &mut player,
        &hole,
        &mut timer,
        &mut lc,
        100,
    );
    assert!(ev.is_some());
    assert_eq!(lc.0, 1);
    assert_eq!(transform.translation.x, SENTINEL_X);
    // The uniform scale is reset to full on both axes for the next level.
    assert_eq!(transform.scale.x, 1000);
    assert_eq!(transform.scale.y, 1000);
    // The parked ball no longer overlaps the hole: no second notification.
    let again = check_for_collision_with_hole(
        &mut transform,
        &mut player,
        &hole,
        &mut timer,
        &mut lc,
        100,
    );
    assert!(again.is_none());
    assert_eq!(lc.0, 1);
}

#[test]
fn ball_off_the_hole_keeps_settling_paused() {
    let hole = Hole { translation: Vec3 { x: 0, y: 0, z: 0 } };
    let mut transform = Transform {
        translation: Vec3 { x: 500_000, y: 0, z: 0 },
        scale: Vec2 { x: 1000, y: 1000 },
    };
    let mut player = Player {
        vel: 5_000,
        dir: Vec3 { x: 100, y: 0, z: 0 },
        first_mouse_pos: Vec3 { x: 0, y: 0, z: 0 },
        selected: false,
    };
    let mut timer = ShrinkTimer { period_ms: 100, elapsed_ms: 0 };
    let mut lc = LevelCount(3);
    let ev = check_for_collision_with_hole(
        &mut transform,
        &mut player,
        &hole,
        &mut timer,
        &mut lc,
        100,
    );
    assert!(ev.is_none());
    assert_eq!(transform.scale, Vec2 { x: 1000, y: 1000 });
    assert_eq!(player.vel, 5_000);
    // The shared timer only advances while the ball rests in the hole.
    assert_eq!(timer.elapsed_ms, 0);
    assert_eq!(lc.0, 3);
}

#[test]
fn new_game_spawns_level_zero() {
    let g = GameState::new(HALF, HALF);
    assert_eq!(g.level_count.0, 0);
    assert_eq!(g.stroke_count, 0);
    assert_eq!(g.walls.len(), 4);
    assert_eq!(g.transform.translation, Vec3 { x: 0, y: 0, z: 3000 });
    assert_eq!(g.transform.scale, Vec2 { x: 1000, y: 1000 });
    assert_eq!(g.hole.translation, Vec3 { x: 0, y: -100_000, z: 0 });
    assert_eq!(g.player.vel, 0);
    assert!(!g.player.selected);
    assert_eq!(g.timer.period_ms, 100);
}

#[test]
fn advance_rebuilds_the_field_from_the_catalog() {
    let mut g = GameState::new(HALF, HALF);
    g.stroke_count = 11;
    g.level_count = LevelCount(2);
    g.on_level_up(Some(LevelUpEvent), HALF, HALF);
    // The old field is gone; the new one is exactly the level 2 layout.
    assert_eq!(g.walls.len(), 6);
    assert_eq!(g.transform.translation.x, -275_000);
    assert_eq!(g.hole.translation.x, 275_000);
    assert_eq!(g.transform.scale, Vec2 { x: 1000, y: 1000 });
    assert_eq!(g.player.vel, 0);
    assert!(!g.player.selected);
    assert_eq!(g.bar.translation, Vec3 { x: 0, y: 0, z: -2000 });
    // Session counters survive the rebuild.
    assert_eq!(g.stroke_count, 11);
    assert_eq!(g.level_count.0, 2);
}

#[test]
fn missing_notification_changes_nothing() {
    let mut g = GameState::new(HALF, HALF);
    let walls_before = g.walls.clone();
    g.on_level_up(None, HALF, HALF);
    assert_eq!(g.walls, walls_before);
    assert_eq!(g.level_count.0, 0);
}

#[test]
fn ticks_drive_a_full_capture_and_level_change() {
    let mut g = GameState::new(HALF, HALF);
    // Park the ball on the level 0 hole.
    g.transform.translation = g.hole.translation;
    let mut advances: u32 = 0;
    for _ in 0..9 {
        if g.tick(quiet_tick(HALF, HALF)).is_some() {
            advances += 1;
        }
    }
    assert_eq!(advances, 1);
    assert_eq!(g.level_count.0, 1);
    // The field was rebuilt as the level 1 layout with a fresh ball.
    assert_eq!(g.walls.len(), 5);
    assert_eq!(g.transform.translation, Vec3 { x: 0, y: 0, z: 3000 });
    assert_eq!(g.transform.scale, Vec2 { x: 1000, y: 1000 });
    assert_eq!(g.player.vel, 0);
    assert_eq!(g.stroke_count, 0);
}

#[test]
fn ticks_drive_a_stroke_gesture() {
    let mut g = GameState::new(HALF, HALF);
    // Press with the cursor on the ball, drag left, release.
    let press = TickInput {
        dt_ms: 16,
        cursor_sample: Some(Vec2 { x: 0, y: 0 }),
        pressed: true,
        just_released: false,
        x_max: HALF,
        y_max: HALF,
    };
    let ev = g.tick(press);
    assert!(ev.is_none());
    assert!(g.player.selected);
    let release = TickInput {
        dt_ms: 100,
        cursor_sample: Some(Vec2 { x: -3_600, y: 0 }),
        pressed: false,
        just_released: true,
        x_max: HALF,
        y_max: HALF,
    };
    g.tick(release);
    assert_eq!(g.stroke_count, 1);
    assert!(!g.player.selected);
    // The release set velocity 6_000, the same tick's integration moved the
    // ball and decayed the velocity by one unit.
    assert_eq!(g.player.dir, Vec3 { x: 10, y: 0, z: 0 });
    assert_eq!(g.player.vel, 5_000);
    // 6_000 * 10 * 100 * 20 / 1_000_000 = 120 milli units.
    assert_eq!(g.transform.translation.x, 120);
}
