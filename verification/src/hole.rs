//! Hole-Capture State Machine: once the ball overlaps the hole it is snapped
//! onto the hole center and stopped; a repeating interval timer then shrinks
//! it step by step, and when both scale axes reach the minimum threshold the
//! ball is parked outside the play field, the level counter increments and a
//! level-advance notification is emitted.

use vstd::prelude::*;

use crate::collision::{collide, collide_spec, player_size};
use crate::geom::{vec2_bounded, vec3_bounded, Transform, Vec2, Vec3};
use crate::stroke::Player;

verus! {

/// Fire-and-forget notification that the current level has been completed.
pub struct LevelUpEvent;

/// Session-wide current level index.
#[derive(Clone, Copy, PartialEq, Eq, Structural, Debug)]
pub struct LevelCount(pub u16);

/// Repeating interval timer gating the shrink cadence. It keeps running
/// across level loads; only its own repeat cadence resets it.
#[derive(Clone, Copy, PartialEq, Eq, Structural, Debug)]
pub struct ShrinkTimer {
    pub period_ms: u64,
    pub elapsed_ms: u64,
}

/// A positive period within the tick limit, with the elapsed time strictly
/// inside the period.
pub open spec fn wf_timer(t: ShrinkTimer) -> bool {
    0 < t.period_ms <= crate::DT_LIMIT && t.elapsed_ms < t.period_ms
}

/// One advance of the repeating timer: it fires when the accumulated time
/// reaches the period, keeping the overshoot modulo the period.
pub open spec fn timer_tick_spec(t: ShrinkTimer, dt: int) -> (ShrinkTimer, bool) {
    let e = t.elapsed_ms + dt;
    if e >= t.period_ms {
        (ShrinkTimer { elapsed_ms: (e % (t.period_ms as int)) as u64, ..t }, true)
    } else {
        (ShrinkTimer { elapsed_ms: e as u64, ..t }, false)
    }
}

impl ShrinkTimer {
    /// Advances the timer by the tick's elapsed time and reports whether a
    /// period elapsed.
    pub fn tick(&mut self, dt_ms: u64) -> (fired: bool)
        requires
            wf_timer(*old(self)),
            dt_ms <= crate::DT_LIMIT,
        ensures
            (*final(self), fired) == timer_tick_spec(*old(self), dt_ms as int),
            wf_timer(*final(self)),
    {
        let e: u64 = self.elapsed_ms + dt_ms;
        if e >= self.period_ms {
            self.elapsed_ms = e % self.period_ms;
            true
        } else {
            self.elapsed_ms = e;
            false
        }
    }
}

/// The static capture target of the current level.
#[derive(Clone, Copy, PartialEq, Eq, Structural, Debug)]
pub struct Hole {
    pub translation: Vec3,
}

/// Extent of the hole for overlap purposes.
pub open spec fn hole_size() -> Vec2 {
    Vec2 { x: crate::HOLE_R, y: crate::HOLE_R }
}

/// Result of one hole-capture step.
pub struct HoleStep {
    pub transform: Transform,
    pub player: Player,
    pub timer: ShrinkTimer,
    pub level_count: LevelCount,
    pub advance: bool,
}

/// One tick of the Hole-Capture State Machine. While the ball (at its
/// current, not predicted, position) overlaps the hole, its velocity is
/// forced to zero, it is snapped onto the hole center, and on each timer
/// firing both scale axes shrink by one step as long as both are positive.
/// Once both axes are at or below the capture threshold, the ball is parked
/// at the sentinel, its uniform scale is reset to full on both axes for the
/// next level, the
/// level counter increments, and the advance flag is raised.
pub open spec fn hole_spec(
    t: Transform,
    p: Player,
    hole: Vec3,
    tm: ShrinkTimer,
    lc: LevelCount,
    dt: int,
) -> HoleStep {
    let overlapping = collide_spec(t.translation, player_size(), hole, hole_size()) is Some;
    let step = if overlapping {
        let snapped = Transform { translation: Vec3 { x: hole.x, y: hole.y, z: 3000 }, ..t };
        let (tm1, fired) = timer_tick_spec(tm, dt);
        let shrunk = if fired && snapped.scale.x > 0 && snapped.scale.y > 0 {
            Transform {
                scale: Vec2 {
                    x: (snapped.scale.x - crate::SHRINK_STEP) as i64,
                    y: (snapped.scale.y - crate::SHRINK_STEP) as i64,
                },
                ..snapped
            }
        } else {
            snapped
        };
        HoleStep {
            transform: shrunk,
            player: Player { vel: 0, ..p },
            timer: tm1,
            level_count: lc,
            advance: false,
        }
    } else {
        HoleStep { transform: t, player: p, timer: tm, level_count: lc, advance: false }
    };
    if step.transform.scale.x <= crate::CAPTURE_SCALE && step.transform.scale.y
        <= crate::CAPTURE_SCALE {
        HoleStep {
            transform: Transform {
                translation: Vec3 { x: crate::SENTINEL_X, ..step.transform.translation },
                scale: Vec2 { x: crate::SCALE_ONE, y: crate::SCALE_ONE },
            },
            level_count: LevelCount((lc.0 + 1) as u16),
            advance: true,
            ..step
        }
    } else {
        step
    }
}

/// Hole-Capture State Machine, one tick on machine integers. Returns the
/// level-advance notification when the capture completes this tick.
pub fn check_for_collision_with_hole(
    transform: &mut Transform,
    player: &mut Player,
    hole: &Hole,
    timer: &mut ShrinkTimer,
    level_count: &mut LevelCount,
    dt_ms: u64,
) -> (ev: Option<LevelUpEvent>)
    requires
        vec3_bounded(old(transform).translation, (crate::POS_LIMIT + crate::DISP_LIMIT) as i64),
        vec2_bounded(old(transform).scale, crate::SCALE_ONE),
        vec3_bounded(hole.translation, crate::WALL_LIMIT),
        wf_timer(*old(timer)),
        old(level_count).0 < u16::MAX,
        dt_ms <= crate::DT_LIMIT,
    ensures
        ({
            let s = hole_spec(
                *old(transform),
                *old(player),
                hole.translation,
                *old(timer),
                *old(level_count),
                dt_ms as int,
            );
            &&& *final(transform) == s.transform
            &&& *final(player) == s.player
            &&& *final(timer) == s.timer
            &&& *final(level_count) == s.level_count
            &&& (ev is Some) == s.advance
        }),
        wf_timer(*final(timer)),
        vec2_bounded(final(transform).scale, crate::SCALE_ONE),
        vec3_bounded(final(transform).translation, (crate::POS_LIMIT + crate::DISP_LIMIT) as i64),
{
    let c = collide(
        transform.translation,
        Vec2 { x: crate::PLAYER_R, y: crate::PLAYER_R },
        hole.translation,
        Vec2 { x: crate::HOLE_R, y: crate::HOLE_R },
    );
    if c.is_some() {
        player.vel = 0;
        transform.translation = hole.translation;
        transform.translation.z = 3000;
        let fired = timer.tick(dt_ms);
        if fired && transform.scale.x > 0 && transform.scale.y > 0 {
            transform.scale.x = transform.scale.x - crate::SHRINK_STEP;
            transform.scale.y = transform.scale.y - crate::SHRINK_STEP;
        }
    }
    if transform.scale.x <= crate::CAPTURE_SCALE && transform.scale.y <= crate::CAPTURE_SCALE {
        transform.translation.x = crate::SENTINEL_X;
        transform.scale.x = crate::SCALE_ONE;
        transform.scale.y = crate::SCALE_ONE;
        level_count.0 = level_count.0 + 1;
        Some(LevelUpEvent)
    } else {
        None
    }
}

/// State after `k` hole-capture ticks, starting from the given state.
pub open spec fn settle_iter(
    t: Transform,
    p: Player,
    hole: Vec3,
    tm: ShrinkTimer,
    lc: LevelCount,
    dt: int,
    k: nat,
) -> HoleStep
    decreases k,
{
    if k == 0 {
        HoleStep { transform: t, player: p, timer: tm, level_count: lc, advance: false }
    } else {
        let prev = settle_iter(t, p, hole, tm, lc, dt, (k - 1) as nat);
        hole_spec(prev.transform, prev.player, hole, prev.timer, prev.level_count, dt)
    }
}

/// Hole-Capture State Machine, capture law: a ball resting on the hole
/// center at full scale, with the timer firing every tick, shrinks by one
/// step per tick and is captured on exactly the ninth firing, at which point
/// the level counter increments by exactly one and the advance flag is
/// raised for the first time.
pub proof fn lemma_capture_after_nine_firings(
    t: Transform,
    p: Player,
    hole: Vec3,
    pd: u64,
    lc: LevelCount,
    k: nat,
)
    requires
        t.translation.x == hole.x,
        t.translation.y == hole.y,
        t.scale == (Vec2 { x: crate::SCALE_ONE, y: crate::SCALE_ONE }),
        0 < pd,
        lc.0 < u16::MAX,
        1 <= k <= 9,
    ensures
        ({
            let tm = ShrinkTimer { period_ms: pd, elapsed_ms: 0 };
            let s = settle_iter(t, p, hole, tm, lc, pd as int, k);
            &&& (s.advance <==> k == 9)
            &&& (k < 9 ==> s.transform.scale == (Vec2 {
                x: (crate::SCALE_ONE - crate::SHRINK_STEP * k) as i64,
                y: (crate::SCALE_ONE - crate::SHRINK_STEP * k) as i64,
            }) && s.level_count == lc && s.transform.translation == (Vec3 {
                x: hole.x,
                y: hole.y,
                z: 3000,
            }) && s.timer == tm && s.player == (Player { vel: 0, ..p }))
            &&& (k == 9 ==> s.level_count == (LevelCount((lc.0 + 1) as u16))
                && s.transform.translation == (Vec3 { x: crate::SENTINEL_X, y: hole.y, z: 3000 })
                && s.transform.scale == (Vec2 { x: crate::SCALE_ONE, y: crate::SCALE_ONE })
                && s.timer == tm && s.player == (Player { vel: 0, ..p }))
        }),
    decreases k,
{
    let tm = ShrinkTimer { period_ms: pd, elapsed_ms: 0 };
    let dt = pd as int;
    if k == 1 {
        let s0 = settle_iter(t, p, hole, tm, lc, dt, 0);
        assert(s0.transform == t);
        assert(collide_spec(t.translation, player_size(), hole, hole_size()) is Some);
        assert(timer_tick_spec(tm, dt).1);
        assert(timer_tick_spec(tm, dt).0 == tm);
    } else {
        lemma_capture_after_nine_firings(t, p, hole, pd, lc, (k - 1) as nat);
        let prev = settle_iter(t, p, hole, tm, lc, dt, (k - 1) as nat);
        assert(collide_spec(prev.transform.translation, player_size(), hole, hole_size())
            is Some);
        assert((pd as int) % (pd as int) == 0) by (nonlinear_arith)
            requires
                pd >= 1,
        ;
        assert(timer_tick_spec(prev.timer, dt).1);
        assert(timer_tick_spec(prev.timer, dt).0 == tm);
    }
}

/// Hole-Capture State Machine, single-shot law: the tick after a capture
/// raises no second notification — the parked ball no longer overlaps the
/// hole, and its reset scale is above the capture threshold.
pub proof fn lemma_no_second_notification(
    t: Transform,
    p: Player,
    hole: Vec3,
    pd: u64,
    lc: LevelCount,
)
    requires
        t.translation.x == hole.x,
        t.translation.y == hole.y,
        t.scale == (Vec2 { x: crate::SCALE_ONE, y: crate::SCALE_ONE }),
        0 < pd,
        lc.0 < u16::MAX,
        vec3_bounded(hole, crate::WALL_LIMIT),
    ensures
        ({
            let tm = ShrinkTimer { period_ms: pd, elapsed_ms: 0 };
            let s = settle_iter(t, p, hole, tm, lc, pd as int, 10);
            !s.advance && s.level_count == (LevelCount((lc.0 + 1) as u16))
        }),
{
    lemma_capture_after_nine_firings(t, p, hole, pd, lc, 9);
    let tm = ShrinkTimer { period_ms: pd, elapsed_ms: 0 };
    let s9 = settle_iter(t, p, hole, tm, lc, pd as int, 9);
    assert(!(collide_spec(s9.transform.translation, player_size(), hole, hole_size())
        is Some));
}

} // verus!
