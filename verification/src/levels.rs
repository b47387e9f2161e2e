//! Level catalog: a pure mapping from a level index and the viewport's
//! half-extents to a declarative layout of wall rectangles, a player spawn
//! and a hole position. Indices outside the defined range fall back to the
//! border-only layout of index 0.

use vstd::prelude::*;

use crate::geom::{vec2_bounded, vec3_bounded, Vec2, Vec3};

verus! {

/// Thickness of a border wall, in milli units (30.0).
pub const WALL_THICKNESS: i64 = 30_000;

/// Length of a border wall, long enough to span any viewport.
pub const BORDER_LEN: i64 = 100_000_000_000;

/// One playable layout. The two wall sequences run in lockstep: entry `i` of
/// `wall_translation` is the center of the wall whose extent is entry `i` of
/// `wall_size`.
pub struct Level {
    pub wall_translation: Vec<Vec3>,
    pub wall_size: Vec<Vec2>,
    pub player_translation: Vec3,
    pub hole_translation: Vec3,
}

/// Mathematical model of a `Level`.
#[verifier::ext_equal]
pub struct LevelModel {
    pub wall_translation: Seq<Vec3>,
    pub wall_size: Seq<Vec2>,
    pub player_translation: Vec3,
    pub hole_translation: Vec3,
}

impl View for Level {
    type V = LevelModel;

    open spec fn view(&self) -> LevelModel {
        LevelModel {
            wall_translation: self.wall_translation@,
            wall_size: self.wall_size@,
            player_translation: self.player_translation,
            hole_translation: self.hole_translation,
        }
    }
}

/// Narrowing of a spec integer back to `i64`; exact on every value the
/// catalog produces under `valid_extents`.
pub open spec fn w64(a: int) -> i64 {
    a as i64
}

/// The empty layout: no walls, spawn at the origin, hole below it.
pub open spec fn level_default() -> LevelModel {
    LevelModel {
        wall_translation: Seq::empty(),
        wall_size: Seq::empty(),
        player_translation: Vec3 { x: 0, y: 0, z: 3000 },
        hole_translation: Vec3 { x: 0, y: -100_000i64, z: 0 },
    }
}

impl Default for Level {
    /// The empty layout, before border walls are added.
    fn default() -> (l: Level)
        ensures
            l@ == level_default(),
    {
        let l = Level {
            wall_translation: Vec::new(),
            wall_size: Vec::new(),
            player_translation: Vec3 { x: 0, y: 0, z: 3000 },
            hole_translation: Vec3 { x: 0, y: -100_000i64, z: 0 },
        };
        proof {
            assert(l@ =~= level_default());
        }
        l
    }
}

/// Centers of the four border walls for the given half-extents.
pub open spec fn border_translations(x_max: i64, y_max: i64) -> Seq<Vec3> {
    seq![
        Vec3 { x: x_max, y: 0, z: 4000 },
        Vec3 { x: w64(-x_max), y: 0, z: 4000 },
        Vec3 { x: 0, y: y_max, z: 4000 },
        Vec3 { x: 0, y: w64(-y_max), z: 4000 },
    ]
}

/// Extents of the four border walls.
pub open spec fn border_sizes() -> Seq<Vec2> {
    seq![
        Vec2 { x: WALL_THICKNESS, y: BORDER_LEN },
        Vec2 { x: WALL_THICKNESS, y: BORDER_LEN },
        Vec2 { x: BORDER_LEN, y: WALL_THICKNESS },
        Vec2 { x: BORDER_LEN, y: WALL_THICKNESS },
    ]
}

/// Appends the four border walls of the play-field edge to a layout.
pub open spec fn add_walls_spec(l: LevelModel, x_max: i64, y_max: i64) -> LevelModel {
    LevelModel {
        wall_translation: l.wall_translation + border_translations(x_max, y_max),
        wall_size: l.wall_size + border_sizes(),
        ..l
    }
}

/// Half-extents the catalog accepts: non-negative and small enough that every
/// derived coordinate stays far inside `i64`.
pub open spec fn valid_extents(x_max: i64, y_max: i64) -> bool {
    0 <= x_max <= crate::EXTENT_LIMIT && 0 <= y_max <= crate::EXTENT_LIMIT
}

/// The full catalog. Levels 0 through 4 are defined; any other index yields
/// the border-only layout of level 0.
pub open spec fn level_spec(lvl: u16, x_max: i64, y_max: i64) -> LevelModel {
    let base = add_walls_spec(level_default(), x_max, y_max);
    if lvl == 1 {
        LevelModel {
            wall_translation: base.wall_translation.push(Vec3 { x: 0, y: -50_000i64, z: 0 }),
            wall_size: base.wall_size.push(Vec2 { x: 30_000, y: 30_000 }),
            ..base
        }
    } else if lvl == 2 {
        LevelModel {
            wall_translation: base.wall_translation.push(
                Vec3 { x: 100_000, y: -100_000i64, z: 4000 },
            ).push(Vec3 { x: -100_000i64, y: 100_000, z: 4000 }),
            wall_size: base.wall_size.push(
                Vec2 { x: 30_000, y: w64(y_max * 2 - 100_000) },
            ).push(Vec2 { x: 30_000, y: w64(y_max * 2 + 100_000) }),
            player_translation: Vec3 { x: w64(-x_max + 50_000), ..base.player_translation },
            hole_translation: Vec3 { x: w64(x_max - 50_000), ..base.hole_translation },
        }
    } else if lvl == 3 {
        LevelModel {
            wall_translation: base.wall_translation.push(
                Vec3 { x: -20_000i64, y: -100_000i64, z: 4000 },
            ),
            wall_size: base.wall_size.push(Vec2 { x: w64(x_max * 2 - 90_000), y: 30_000 }),
            player_translation: Vec3 { x: w64(x_max - 100_000), ..base.player_translation },
            hole_translation: Vec3 {
                x: w64(x_max - 100_000),
                y: w64(base.hole_translation.y - 100_000),
                ..base.hole_translation
            },
        }
    } else if lvl == 4 {
        LevelModel {
            wall_translation: base.wall_translation.push(Vec3 { x: 0, y: 90_000, z: 4000 }),
            wall_size: base.wall_size.push(Vec2 { x: 30_000, y: 50_000 }),
            player_translation: Vec3 {
                x: w64(-x_max + 50_000),
                y: w64(-y_max + 50_000),
                ..base.player_translation
            },
            hole_translation: Vec3 {
                x: w64(x_max - 50_000),
                y: w64(y_max - 50_000),
                ..base.hole_translation
            },
        }
    } else {
        base
    }
}

/// The wall sequences run in lockstep and every coordinate and extent of the
/// layout is bounded by `crate::WALL_LIMIT`.
pub open spec fn wf_level(l: LevelModel) -> bool {
    &&& l.wall_translation.len() == l.wall_size.len()
    &&& forall|i: int|
        0 <= i < l.wall_translation.len() ==> vec3_bounded(
            #[trigger] l.wall_translation[i],
            crate::WALL_LIMIT,
        )
    &&& forall|i: int|
        0 <= i < l.wall_size.len() ==> vec2_bounded(#[trigger] l.wall_size[i], crate::WALL_LIMIT)
    &&& vec3_bounded(l.player_translation, crate::WALL_LIMIT)
    &&& vec3_bounded(l.hole_translation, crate::WALL_LIMIT)
}

/// Appends the four border walls of the play-field edge.
fn add_walls(l: Level, x_max: i64, y_max: i64) -> (r: Level)
    requires
        valid_extents(x_max, y_max),
    ensures
        r@ == add_walls_spec(l@, x_max, y_max),
{
    let ghost l0 = l@;
    let mut l = l;
    l.wall_translation.push(Vec3::new(x_max, 0, 4000));
    l.wall_size.push(Vec2::new(WALL_THICKNESS, BORDER_LEN));
    l.wall_translation.push(Vec3::new(-x_max, 0, 4000));
    l.wall_size.push(Vec2::new(WALL_THICKNESS, BORDER_LEN));
    l.wall_translation.push(Vec3::new(0, y_max, 4000));
    l.wall_size.push(Vec2::new(BORDER_LEN, WALL_THICKNESS));
    l.wall_translation.push(Vec3::new(0, -y_max, 4000));
    l.wall_size.push(Vec2::new(BORDER_LEN, WALL_THICKNESS));
    proof {
        assert(l@ =~= add_walls_spec(l0, x_max, y_max));
    }
    l
}

/// Level Catalog: the layout of level `lvl` for a viewport with the given
/// half-extents. Pure: the result is exactly `level_spec(lvl, x_max, y_max)`.
pub fn get_level(lvl: u16, x_max: i64, y_max: i64) -> (l: Level)
    requires
        valid_extents(x_max, y_max),
    ensures
        l@ == level_spec(lvl, x_max, y_max),
{
    match lvl {
        1 => {
            let mut l = add_walls(Level::default(), x_max, y_max);
            l.wall_translation.push(Vec3::new(0, -50_000, 0));
            l.wall_size.push(Vec2::new(30_000, 30_000));
            proof {
                assert(l@ =~= level_spec(lvl, x_max, y_max));
            }
            l
        },
        2 => {
            let mut l = add_walls(Level::default(), x_max, y_max);
            l.player_translation.x = -x_max + 50_000;
            l.hole_translation.x = x_max - 50_000;
            l.wall_translation.push(Vec3::new(100_000, -100_000, 4000));
            l.wall_size.push(Vec2::new(30_000, y_max * 2 - 100_000));
            l.wall_translation.push(Vec3::new(-100_000, 100_000, 4000));
            l.wall_size.push(Vec2::new(30_000, y_max * 2 + 100_000));
            proof {
                assert(l@ =~= level_spec(lvl, x_max, y_max));
            }
            l
        },
        3 => {
            let mut l = add_walls(Level::default(), x_max, y_max);
            l.player_translation.x = x_max - 100_000;
            l.hole_translation.x = x_max - 100_000;
            l.hole_translation.y = l.hole_translation.y - 100_000;
            l.wall_translation.push(Vec3::new(-20_000, -100_000, 4000));
            l.wall_size.push(Vec2::new(x_max * 2 - 90_000, 30_000));
            proof {
                assert(l@ =~= level_spec(lvl, x_max, y_max));
            }
            l
        },
        4 => {
            let mut l = add_walls(Level::default(), x_max, y_max);
            l.hole_translation.y = y_max - 50_000;
            l.hole_translation.x = x_max - 50_000;
            l.player_translation.y = -y_max + 50_000;
            l.player_translation.x = -x_max + 50_000;
            l.wall_translation.push(Vec3::new(0, 90_000, 4000));
            l.wall_size.push(Vec2::new(30_000, 50_000));
            proof {
                assert(l@ =~= level_spec(lvl, x_max, y_max));
            }
            l
        },
        _ => {
            let l = add_walls(Level::default(), x_max, y_max);
            proof {
                assert(l@ =~= level_spec(lvl, x_max, y_max));
            }
            l
        },
    }
}

/// Every level index outside the defined catalog yields the same border-only
/// layout as index 0, with exactly four walls.
pub proof fn lemma_get_level_default(lvl: u16, x_max: i64, y_max: i64)
    requires
        lvl > 4,
    ensures
        level_spec(lvl, x_max, y_max) == level_spec(0, x_max, y_max),
        level_spec(lvl, x_max, y_max).wall_translation.len() == 4,
{
    assert(level_spec(lvl, x_max, y_max) =~= level_spec(0, x_max, y_max));
}

/// For every level, the wall-position and wall-size sequences have equal
/// length.
pub proof fn lemma_level_wall_lengths(lvl: u16, x_max: i64, y_max: i64)
    ensures
        level_spec(lvl, x_max, y_max).wall_translation.len() == level_spec(
            lvl,
            x_max,
            y_max,
        ).wall_size.len(),
{
}

/// Under valid half-extents, every catalog layout is well formed.
pub proof fn lemma_level_spec_wf(lvl: u16, x_max: i64, y_max: i64)
    requires
        valid_extents(x_max, y_max),
    ensures
        wf_level(level_spec(lvl, x_max, y_max)),
{
    let l = level_spec(lvl, x_max, y_max);
    assert forall|i: int| 0 <= i < l.wall_translation.len() implies vec3_bounded(
        #[trigger] l.wall_translation[i],
        crate::WALL_LIMIT,
    ) by {
        let base = add_walls_spec(level_default(), x_max, y_max);
        assert(base.wall_translation =~= border_translations(x_max, y_max));
        if i < 4 {
            assert(l.wall_translation[i] == border_translations(x_max, y_max)[i]);
        }
    }
    assert forall|i: int| 0 <= i < l.wall_size.len() implies vec2_bounded(
        #[trigger] l.wall_size[i],
        crate::WALL_LIMIT,
    ) by {
        let base = add_walls_spec(level_default(), x_max, y_max);
        assert(base.wall_size =~= border_sizes());
        if i < 4 {
            assert(l.wall_size[i] == border_sizes()[i]);
        }
    }
}

} // verus!
