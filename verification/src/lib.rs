//! Simulation core of a top-down miniature-golf game: a level catalog that
//! assembles numbered layouts from the viewport's half-extents, an
//! axis-aligned collision resolver that reflects the ball's travel direction,
//! a stroke input controller that turns a press-drag-release gesture into a
//! velocity, a motion integrator with fixed per-tick decay, a hole-capture
//! state machine with a shrink animation, and a level progression controller.
//!
//! All world quantities are fixed-point integers in thousandths of a world
//! unit ("milli"), so every formula is exact integer arithmetic.

use vstd::prelude::*;

pub mod collision;
pub mod game;
pub mod geom;
pub mod hole;
pub mod levels;
pub mod misc;
pub mod motion;
pub mod num;
pub mod stroke;

verus! {

/// Fixed-point scale: one world unit is this many coordinate steps.
pub const MILLI: i64 = 1000;

/// Largest speed a stroke can impart, in milli world units per second (55.0).
pub const MAX_VEL: i64 = 55_000;

/// Divisor that turns the pull vector into the travel direction (360.0).
pub const MAX_DIR_LEN: i64 = 360;

/// Inverse time constant of the pull-distance formula, in milliseconds (0.06 s).
pub const PULL_TIME_MS: u64 = 60;

/// Side of the ball's bounding square, in milli units (15.0).
pub const PLAYER_R: i64 = 15_000;

/// Side of the hole's bounding square, in milli units (15.0).
pub const HOLE_R: i64 = 15_000;

/// Extra factor applied to the displacement in the motion integrator (20.0).
pub const MOVE_SCALE: u64 = 20;

/// Per-tick linear velocity decay, in milli units per second (1.0).
pub const VEL_DECAY: i64 = 1000;

/// Half-width of the symmetric band around zero in which velocity snaps to
/// exactly zero (1.0).
pub const REST_BAND: i64 = 1000;

/// Uniform scale of a freshly spawned ball (1.0).
pub const SCALE_ONE: i64 = 1000;

/// Amount the ball's scale shrinks on each firing of the shrink timer (0.1).
pub const SHRINK_STEP: i64 = 100;

/// Scale at or below which the ball counts as captured by the hole (0.1).
pub const CAPTURE_SCALE: i64 = 100;

/// Period of the repeating shrink timer, in milliseconds (0.1 s).
pub const SHRINK_PERIOD_MS: u64 = 100;

/// X coordinate the captured ball is parked at, far outside any play field.
pub const SENTINEL_X: i64 = -10_000_000_000_000_000;

/// Largest coordinate magnitude the collision resolver accepts; keeps the
/// doubled-coordinate arithmetic inside `i64`.
pub const COORD_LIMIT: i64 = 200_000_000_000_000_000;

/// Largest ball coordinate magnitude a tick accepts; one tick's displacement
/// never pushes the ball past `COORD_LIMIT`.
pub const POS_LIMIT: i64 = 100_000_000_000_000_000;

/// Largest magnitude one tick can displace the ball by.
pub const DISP_LIMIT: i64 = 200_000_000_000_000;

/// Largest cursor coordinate magnitude the stroke controller accepts.
pub const CURSOR_LIMIT: i64 = 1_000_000_000;

/// Largest viewport half-extent the level catalog accepts.
pub const EXTENT_LIMIT: i64 = 1_000_000_000_000;

/// Bound on every coordinate and size in a catalog level.
pub const WALL_LIMIT: i64 = 4_000_000_000_000;

/// Largest elapsed time of a single tick, in milliseconds.
pub const DT_LIMIT: u64 = 10_000_000;

/// Bound on the components of a travel direction produced by a stroke.
pub const DIR_LIMIT: i64 = 10_000_000;

} // verus!
