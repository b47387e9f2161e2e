//! Stroke Input Controller: turns a press-drag-release mouse gesture into an
//! initial velocity and travel direction for the ball, counts completed
//! strokes, and derives the power-bar visual from the live pull distance.

use vstd::prelude::*;

use crate::geom::{vec3_bounded, Transform, Vec2, Vec3};
use crate::misc::dist_spec;
use crate::num::div_t;

verus! {

/// The ball's gameplay state: velocity magnitude (signed, milli units per
/// second), travel direction (milli factor per axis), the cursor snapshot
/// taken when the gesture began, and whether a gesture is being held.
#[derive(Clone, Copy, PartialEq, Eq, Structural, Debug)]
pub struct Player {
    pub vel: i64,
    pub dir: Vec3,
    pub first_mouse_pos: Vec3,
    pub selected: bool,
}

/// A freshly spawned ball: at rest, no direction, no gesture.
pub open spec fn player_default() -> Player {
    Player {
        vel: 0,
        dir: Vec3 { x: 0, y: 0, z: 0 },
        first_mouse_pos: Vec3 { x: 0, y: 0, z: 0 },
        selected: false,
    }
}

impl Default for Player {
    fn default() -> (p: Player)
        ensures
            p == player_default(),
    {
        Player {
            vel: 0,
            dir: Vec3 { x: 0, y: 0, z: 0 },
            first_mouse_pos: Vec3 { x: 0, y: 0, z: 0 },
            selected: false,
        }
    }
}

/// Bounds every reachable ball state satisfies: speed within the stroke
/// clamp, direction within the pull-over-normalization range, snapshot within
/// the cursor range.
pub open spec fn wf_player(p: Player) -> bool {
    &&& -crate::MAX_VEL <= p.vel <= crate::MAX_VEL
    &&& vec3_bounded(p.dir, crate::DIR_LIMIT)
    &&& vec3_bounded(p.first_mouse_pos, crate::CURSOR_LIMIT)
}

/// Color of the power bar, a two-tier threshold plus the idle tint.
#[derive(Clone, Copy, PartialEq, Eq, Structural, Debug)]
pub enum BarColor {
    Orange,
    LimeGreen,
    DarkGreen,
    Indigo,
}

/// The purely visual power-bar proxy: position, vertical scale and color all
/// derive from the stroke controller's state.
#[derive(Clone, Copy, PartialEq, Eq, Structural, Debug)]
pub struct PowerBar {
    pub translation: Vec3,
    pub scale_y: i64,
    pub color: BarColor,
}

/// A freshly spawned power bar, parked behind the play field.
pub open spec fn bar_default() -> PowerBar {
    PowerBar {
        translation: Vec3 { x: 0, y: 0, z: -2000i64 },
        scale_y: crate::SCALE_ONE,
        color: BarColor::Indigo,
    }
}

/// The entity holding the latest cursor world-position sample.
#[derive(Clone, Copy, PartialEq, Eq, Structural, Debug)]
pub struct CursorComponent {
    pub translation: Vec3,
}

/// The cursor entity as first spawned, before any sample arrived.
pub open spec fn cursor_default() -> CursorComponent {
    CursorComponent { translation: Vec3 { x: 0, y: 0, z: -1000i64 } }
}

/// Stores the latest cursor world-position sample, if one arrived this tick;
/// an absent sample leaves the stored position untouched.
pub fn update_cursor_coords(cursor: &mut CursorComponent, sample: Option<Vec2>)
    requires
        sample is Some ==> -crate::CURSOR_LIMIT <= sample->0.x <= crate::CURSOR_LIMIT
            && -crate::CURSOR_LIMIT <= sample->0.y <= crate::CURSOR_LIMIT,
    ensures
        *final(cursor) == (match sample {
            Some(s) => CursorComponent { translation: Vec3 { x: s.x, y: s.y, z: -1000i64 } },
            None => *old(cursor),
        }),
{
    match sample {
        Some(s) => {
            cursor.translation = Vec3 { x: s.x, y: s.y, z: -1000i64 };
        },
        None => {},
    }
}

/// The clamped pull distance of the gesture for one tick: the distance
/// between the gesture anchor and the cursor over the inverse time constant,
/// scaled by the tick's elapsed seconds, capped at `crate::MAX_VEL`.
pub open spec fn pull_spec(anchor: Vec3, cur: Vec3, dt: int) -> int {
    let d = dist_spec(anchor, cur, crate::PULL_TIME_MS as int) * dt / 1000;
    if d > crate::MAX_VEL {
        crate::MAX_VEL as int
    } else {
        d
    }
}

/// The travel direction imparted by a release: the pull vector divided by
/// the normalization constant, component by component, rounded toward zero.
pub open spec fn dir_spec(anchor: Vec3, cur: Vec3) -> Vec3 {
    Vec3 {
        x: div_t(anchor.x - cur.x, crate::MAX_DIR_LEN as int) as i64,
        y: div_t(anchor.y - cur.y, crate::MAX_DIR_LEN as int) as i64,
        z: div_t(anchor.z - cur.z, crate::MAX_DIR_LEN as int) as i64,
    }
}

/// One tick of the Stroke Input Controller. First the rest-band clamp pins a
/// near-zero velocity to exactly zero and the bar falls back to its idle
/// tint; then exactly one of the gesture branches applies: a press starts a
/// gesture when the ball is at rest, a release completes it (counting one
/// stroke and setting velocity and direction), and a held gesture updates the
/// power-bar preview.
pub open spec fn input_spec(
    p: Player,
    ball: Vec3,
    cur: Vec3,
    bar: PowerBar,
    strokes: u16,
    pressed: bool,
    just_released: bool,
    dt: int,
) -> (Player, u16, PowerBar) {
    let p0 = if -crate::REST_BAND < p.vel < crate::REST_BAND {
        Player { vel: 0, ..p }
    } else {
        p
    };
    let bar0 = PowerBar { color: BarColor::Orange, ..bar };
    if pressed && !p0.selected && p0.vel == 0 {
        (
            Player { selected: true, first_mouse_pos: cur, ..p0 },
            strokes,
            PowerBar {
                translation: Vec3 { x: (ball.x - 40_000) as i64, y: ball.y, z: ball.z },
                ..bar0
            },
        )
    } else if just_released && p0.selected {
        let vel = pull_spec(p0.first_mouse_pos, cur, dt);
        (
            Player {
                selected: false,
                vel: vel as i64,
                dir: dir_spec(p0.first_mouse_pos, cur),
                ..p0
            },
            (strokes + 1) as u16,
            PowerBar { translation: Vec3 { z: -2000i64, ..bar0.translation }, ..bar0 },
        )
    } else if p0.selected {
        let d = pull_spec(p0.first_mouse_pos, cur, dt);
        let sy = d / 5;
        (
            p0,
            strokes,
            PowerBar {
                translation: Vec3 { z: 2000, ..bar0.translation },
                scale_y: sy as i64,
                color: if sy > 10_000 {
                    BarColor::LimeGreen
                } else {
                    BarColor::DarkGreen
                },
            },
        )
    } else {
        (p0, strokes, bar0)
    }
}

/// The clamped pull distance on machine integers.
fn pull_dist(anchor: Vec3, cur: Vec3, dt_ms: u64) -> (r: i64)
    requires
        vec3_bounded(anchor, crate::CURSOR_LIMIT),
        vec3_bounded(cur, crate::CURSOR_LIMIT),
        dt_ms <= crate::DT_LIMIT,
    ensures
        r == pull_spec(anchor, cur, dt_ms as int),
        0 <= r <= crate::MAX_VEL,
{
    let d0: i64 = crate::misc::get_dist(anchor, cur, crate::PULL_TIME_MS);
    proof {
        assert((d0 as int) * (dt_ms as int) <= 5_000_000_000_000i64 * 10_000_000)
            by (nonlinear_arith)
            requires
                0 <= d0 <= 5_000_000_000_000i64,
                0 <= dt_ms <= 10_000_000u64,
        ;
    }
    let scaled: u128 = (d0 as u128) * (dt_ms as u128) / 1000;
    if scaled > 55_000u128 {
        55_000i64
    } else {
        scaled as i64
    }
}

/// Stroke Input Controller, one tick. Mirrors `input_spec` exactly; the
/// stroke counter increments only on the release branch.
pub fn input(
    player: &mut Player,
    transform: &Transform,
    cursor: &CursorComponent,
    bar: &mut PowerBar,
    strokes: &mut u16,
    pressed: bool,
    just_released: bool,
    dt_ms: u64,
)
    requires
        wf_player(*old(player)),
        vec3_bounded(transform.translation, crate::POS_LIMIT),
        vec3_bounded(cursor.translation, crate::CURSOR_LIMIT),
        dt_ms <= crate::DT_LIMIT,
        *old(strokes) < u16::MAX,
    ensures
        (*final(player), *final(strokes), *final(bar)) == input_spec(
            *old(player),
            transform.translation,
            cursor.translation,
            *old(bar),
            *old(strokes),
            pressed,
            just_released,
            dt_ms as int,
        ),
        wf_player(*final(player)),
{
    if player.vel > -crate::REST_BAND && player.vel < crate::REST_BAND {
        player.vel = 0;
    }
    bar.color = BarColor::Orange;
    if pressed && !player.selected && player.vel == 0 {
        bar.translation = transform.translation;
        bar.translation.x = bar.translation.x - 40_000;
        player.selected = true;
        player.first_mouse_pos = cursor.translation;
    } else if just_released && player.selected {
        *strokes = *strokes + 1;
        bar.translation.z = -2000;
        player.selected = false;
        let vel: i64 = pull_dist(player.first_mouse_pos, cursor.translation, dt_ms);
        player.vel = vel;
        player.dir = Vec3 {
            x: crate::num::div_trunc(player.first_mouse_pos.x - cursor.translation.x, crate::MAX_DIR_LEN),
            y: crate::num::div_trunc(player.first_mouse_pos.y - cursor.translation.y, crate::MAX_DIR_LEN),
            z: crate::num::div_trunc(player.first_mouse_pos.z - cursor.translation.z, crate::MAX_DIR_LEN),
        };
    } else if player.selected {
        bar.translation.z = 2000;
        let d: i64 = pull_dist(player.first_mouse_pos, cursor.translation, dt_ms);
        bar.scale_y = d / 5;
        if bar.scale_y > 10_000 {
            bar.color = BarColor::LimeGreen;
        } else {
            bar.color = BarColor::DarkGreen;
        }
    }
}

/// Stroke Input Controller: a press followed immediately by a release with
/// zero cursor movement still counts exactly one stroke, and the released
/// stroke imparts zero velocity and no direction.
pub proof fn lemma_press_release_one_stroke(
    p: Player,
    ball: Vec3,
    cur: Vec3,
    bar: PowerBar,
    strokes: u16,
    dt1: int,
    dt2: int,
)
    requires
        p.vel == 0,
        !p.selected,
        strokes < u16::MAX,
    ensures
        ({
            let (p1, s1, b1) = input_spec(p, ball, cur, bar, strokes, true, false, dt1);
            let (p2, s2, b2) = input_spec(p1, ball, cur, b1, s1, false, true, dt2);
            s2 == strokes + 1 && p2.vel == 0 && !p2.selected && p2.dir == (Vec3 {
                x: 0,
                y: 0,
                z: 0,
            })
        }),
{
    let (p1, s1, b1) = input_spec(p, ball, cur, bar, strokes, true, false, dt1);
    assert(p1.selected && p1.first_mouse_pos == cur && p1.vel == 0);
    assert(crate::misc::dist_sq(cur, cur) == 0);
    assert(crate::num::sqrt_floor(0nat) == 0);
    assert(dist_spec(cur, cur, crate::PULL_TIME_MS as int) == 0);
    assert(pull_spec(cur, cur, dt2) == 0);
    assert(div_t(0, crate::MAX_DIR_LEN as int) == 0);
}

/// Ball Motion Integrator, rest clamp: with no gesture in progress, a
/// velocity inside the symmetric rest band is pinned to exactly zero by the
/// input pass.
pub proof fn lemma_band_clamps_to_zero(
    p: Player,
    ball: Vec3,
    cur: Vec3,
    bar: PowerBar,
    strokes: u16,
    pressed: bool,
    just_released: bool,
    dt: int,
)
    requires
        -crate::REST_BAND < p.vel < crate::REST_BAND,
        !p.selected,
    ensures
        input_spec(p, ball, cur, bar, strokes, pressed, just_released, dt).0.vel == 0,
{
}

} // verus!
