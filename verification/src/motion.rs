//! Ball Motion Integrator: advances the ball's position by velocity times
//! direction times elapsed time (times a fixed gain), then decays the
//! velocity linearly toward zero by a fixed per-tick amount.

use vstd::prelude::*;

use crate::geom::{vec3_bounded, Transform, Vec3};
use crate::num::disp_spec;
use crate::stroke::{wf_player, Player};

verus! {

/// Fixed per-tick linear decay of the velocity toward zero; independent of
/// the tick's elapsed time.
pub open spec fn decay_spec(v: i64) -> i64 {
    if v > 0 {
        (v - crate::VEL_DECAY) as i64
    } else if v < 0 {
        (v + crate::VEL_DECAY) as i64
    } else {
        0
    }
}

/// The ball's position after one integration step.
pub open spec fn move_spec(t: Vec3, p: Player, dt: int) -> Vec3 {
    Vec3 {
        x: (t.x + disp_spec(p.vel as int, p.dir.x as int, dt, crate::MOVE_SCALE as int)) as i64,
        y: (t.y + disp_spec(p.vel as int, p.dir.y as int, dt, crate::MOVE_SCALE as int)) as i64,
        z: (t.z + disp_spec(p.vel as int, p.dir.z as int, dt, crate::MOVE_SCALE as int)) as i64,
    }
}

/// Ball Motion Integrator, one tick. Runs unconditionally: a velocity of
/// zero yields no displacement, and the decay step never overshoots past the
/// opposite sign by more than the rest band.
pub fn ball_movement(transform: &mut Transform, player: &mut Player, dt_ms: u64)
    requires
        wf_player(*old(player)),
        vec3_bounded(old(transform).translation, crate::POS_LIMIT),
        dt_ms <= crate::DT_LIMIT,
    ensures
        final(transform).translation == move_spec(
            old(transform).translation,
            *old(player),
            dt_ms as int,
        ),
        final(transform).scale == old(transform).scale,
        *final(player) == (Player { vel: decay_spec(old(player).vel), ..*old(player) }),
        wf_player(*final(player)),
        vec3_bounded(final(transform).translation, (crate::POS_LIMIT + crate::DISP_LIMIT) as i64),
{
    let dx: i64 = crate::num::scaled_disp(player.vel, player.dir.x, dt_ms, crate::MOVE_SCALE);
    let dy: i64 = crate::num::scaled_disp(player.vel, player.dir.y, dt_ms, crate::MOVE_SCALE);
    let dz: i64 = crate::num::scaled_disp(player.vel, player.dir.z, dt_ms, crate::MOVE_SCALE);
    transform.translation.x = transform.translation.x + dx;
    transform.translation.y = transform.translation.y + dy;
    transform.translation.z = transform.translation.z + dz;
    if player.vel > 0 {
        player.vel = player.vel - crate::VEL_DECAY;
    } else if player.vel < 0 {
        player.vel = player.vel + crate::VEL_DECAY;
    }
}

/// Velocity after `n` integration ticks with no new stroke.
pub open spec fn vel_after(v: i64, n: nat) -> i64
    decreases n,
{
    if n == 0 {
        v
    } else {
        decay_spec(vel_after(v, (n - 1) as nat))
    }
}

/// Ball Motion Integrator, decay law: while the remaining velocity stays at
/// or above the decay step, each tick removes exactly one step.
pub proof fn lemma_velocity_decays_linearly(v: i64, n: nat)
    requires
        0 <= crate::VEL_DECAY * n <= v,
    ensures
        vel_after(v, n) == v - crate::VEL_DECAY * n,
    decreases n,
{
    if n > 0 {
        lemma_velocity_decays_linearly(v, (n - 1) as nat);
    }
}

/// Ball Motion Integrator, rest law: a ball at rest stays at rest for any
/// number of ticks.
pub proof fn lemma_rest_velocity_stays(n: nat)
    ensures
        vel_after(0, n) == 0,
    decreases n,
{
    if n > 0 {
        lemma_rest_velocity_stays((n - 1) as nat);
    }
}

/// Ball Motion Integrator, rest law: a ball at rest is not displaced by the
/// integration step.
pub proof fn lemma_rest_no_motion(t: Vec3, p: Player, dt: int)
    requires
        p.vel == 0,
    ensures
        move_spec(t, p, dt) == t,
{
    assert(0int * (p.dir.x as int) * dt * (crate::MOVE_SCALE as int) == 0) by (nonlinear_arith);
    assert(0int * (p.dir.y as int) * dt * (crate::MOVE_SCALE as int) == 0) by (nonlinear_arith);
    assert(0int * (p.dir.z as int) * dt * (crate::MOVE_SCALE as int) == 0) by (nonlinear_arith);
    assert(disp_spec(0, p.dir.x as int, dt, crate::MOVE_SCALE as int) == 0);
    assert(disp_spec(0, p.dir.y as int, dt, crate::MOVE_SCALE as int) == 0);
    assert(disp_spec(0, p.dir.z as int, dt, crate::MOVE_SCALE as int) == 0);
}

} // verus!
