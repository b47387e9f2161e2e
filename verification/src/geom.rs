//! Plain fixed-point geometry values: 2-D and 3-D vectors and the transform
//! (translation plus uniform shrink scale) of a spawned entity.

use vstd::prelude::*;

verus! {

/// A 2-D vector; coordinates are in thousandths of a world unit.
#[derive(Clone, Copy, PartialEq, Eq, Structural, Debug)]
pub struct Vec2 {
    pub x: i64,
    pub y: i64,
}

/// A 3-D vector; the third axis is used only for draw-order layering.
#[derive(Clone, Copy, PartialEq, Eq, Structural, Debug)]
pub struct Vec3 {
    pub x: i64,
    pub y: i64,
    pub z: i64,
}

impl Vec2 {
    pub fn new(x: i64, y: i64) -> (v: Vec2)
        ensures
            v == (Vec2 { x, y }),
    {
        Vec2 { x, y }
    }
}

impl Vec3 {
    pub fn new(x: i64, y: i64, z: i64) -> (v: Vec3)
        ensures
            v == (Vec3 { x, y, z }),
    {
        Vec3 { x, y, z }
    }
}

/// Position and scale of a spawned entity. The scale starts at
/// `crate::SCALE_ONE` and only the hole-capture state machine changes it.
#[derive(Clone, Copy, PartialEq, Eq, Structural, Debug)]
pub struct Transform {
    pub translation: Vec3,
    pub scale: Vec2,
}

/// All three coordinates are at most `b` in magnitude.
pub open spec fn vec3_bounded(v: Vec3, b: i64) -> bool {
    -b <= v.x <= b && -b <= v.y <= b && -b <= v.z <= b
}

/// Both coordinates are at most `b` in magnitude.
pub open spec fn vec2_bounded(v: Vec2, b: i64) -> bool {
    -b <= v.x <= b && -b <= v.y <= b
}

} // verus!
