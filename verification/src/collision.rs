//! Collision Resolver: axis-aligned overlap test between two rectangles
//! (center plus extent) and classification of the side the overlap occurred
//! on, with the ambiguous diagonal case resolved by reversing both axes.
//! To stay exact, all comparisons are made on doubled coordinates, so a
//! half-extent never has to be rounded.

use vstd::prelude::*;

use crate::geom::{vec2_bounded, vec3_bounded, Vec2, Vec3};
use crate::num::abs_i;
use crate::stroke::{wf_player, Player};

verus! {

/// Side of rectangle `b` on which rectangle `a` overlapped it, or `Inside`
/// when no single axis can be singled out.
#[derive(Clone, Copy, PartialEq, Eq, Structural, Debug)]
pub enum Collision {
    Left,
    Right,
    Top,
    Bottom,
    Inside,
}

/// A static wall rectangle of the current play field.
#[derive(Clone, Copy, PartialEq, Eq, Structural, Debug)]
pub struct Wall {
    pub translation: Vec3,
    pub size: Vec2,
}

/// Doubled left edge of a rectangle given by center and extent.
pub open spec fn rect_min_x(pos: Vec3, size: Vec2) -> int {
    2 * pos.x - size.x
}

/// Doubled right edge.
pub open spec fn rect_max_x(pos: Vec3, size: Vec2) -> int {
    2 * pos.x + size.x
}

/// Doubled bottom edge.
pub open spec fn rect_min_y(pos: Vec3, size: Vec2) -> int {
    2 * pos.y - size.y
}

/// Doubled top edge.
pub open spec fn rect_max_y(pos: Vec3, size: Vec2) -> int {
    2 * pos.y + size.y
}

/// The two rectangles overlap with positive area.
pub open spec fn rects_overlap(a_pos: Vec3, a_size: Vec2, b_pos: Vec3, b_size: Vec2) -> bool {
    &&& rect_min_x(a_pos, a_size) < rect_max_x(b_pos, b_size)
    &&& rect_max_x(a_pos, a_size) > rect_min_x(b_pos, b_size)
    &&& rect_min_y(a_pos, a_size) < rect_max_y(b_pos, b_size)
    &&& rect_max_y(a_pos, a_size) > rect_min_y(b_pos, b_size)
}

/// Horizontal classification: which vertical edge of `b` rectangle `a`
/// straddles, with the (negative) penetration depth, or `None` when `a`
/// straddles neither.
pub open spec fn x_side(a_pos: Vec3, a_size: Vec2, b_pos: Vec3, b_size: Vec2) -> Option<
    (Collision, int),
> {
    if rect_min_x(a_pos, a_size) < rect_min_x(b_pos, b_size) && rect_max_x(a_pos, a_size)
        > rect_min_x(b_pos, b_size) && rect_max_x(a_pos, a_size) < rect_max_x(b_pos, b_size) {
        Some((Collision::Left, rect_min_x(b_pos, b_size) - rect_max_x(a_pos, a_size)))
    } else if rect_min_x(a_pos, a_size) > rect_min_x(b_pos, b_size) && rect_min_x(a_pos, a_size)
        < rect_max_x(b_pos, b_size) && rect_max_x(a_pos, a_size) > rect_max_x(b_pos, b_size) {
        Some((Collision::Right, rect_min_x(a_pos, a_size) - rect_max_x(b_pos, b_size)))
    } else {
        None
    }
}

/// Vertical classification, in the same way.
pub open spec fn y_side(a_pos: Vec3, a_size: Vec2, b_pos: Vec3, b_size: Vec2) -> Option<
    (Collision, int),
> {
    if rect_min_y(a_pos, a_size) < rect_min_y(b_pos, b_size) && rect_max_y(a_pos, a_size)
        > rect_min_y(b_pos, b_size) && rect_max_y(a_pos, a_size) < rect_max_y(b_pos, b_size) {
        Some((Collision::Bottom, rect_min_y(b_pos, b_size) - rect_max_y(a_pos, a_size)))
    } else if rect_min_y(a_pos, a_size) > rect_min_y(b_pos, b_size) && rect_min_y(a_pos, a_size)
        < rect_max_y(b_pos, b_size) && rect_max_y(a_pos, a_size) > rect_max_y(b_pos, b_size) {
        Some((Collision::Top, rect_min_y(a_pos, a_size) - rect_max_y(b_pos, b_size)))
    } else {
        None
    }
}

/// Overlap test and side classification. When both axes classify, the axis
/// with the smaller penetration depth wins; when neither does, the overlap is
/// ambiguous and reported as `Inside`.
pub open spec fn collide_spec(a_pos: Vec3, a_size: Vec2, b_pos: Vec3, b_size: Vec2) -> Option<
    Collision,
> {
    if rects_overlap(a_pos, a_size, b_pos, b_size) {
        match (x_side(a_pos, a_size, b_pos, b_size), y_side(a_pos, a_size, b_pos, b_size)) {
            (Some((xc, xd)), Some((yc, yd))) => if abs_i(yd) < abs_i(xd) {
                Some(yc)
            } else {
                Some(xc)
            },
            (Some((xc, _)), None) => Some(xc),
            (None, Some((yc, _))) => Some(yc),
            (None, None) => Some(Collision::Inside),
        }
    } else {
        None
    }
}

/// Overlap test and side classification on machine integers.
pub fn collide(a_pos: Vec3, a_size: Vec2, b_pos: Vec3, b_size: Vec2) -> (r: Option<Collision>)
    requires
        vec3_bounded(a_pos, crate::COORD_LIMIT),
        vec2_bounded(a_size, crate::COORD_LIMIT),
        vec3_bounded(b_pos, crate::COORD_LIMIT),
        vec2_bounded(b_size, crate::COORD_LIMIT),
    ensures
        r == collide_spec(a_pos, a_size, b_pos, b_size),
{
    let a_min_x: i64 = 2 * a_pos.x - a_size.x;
    let a_max_x: i64 = 2 * a_pos.x + a_size.x;
    let a_min_y: i64 = 2 * a_pos.y - a_size.y;
    let a_max_y: i64 = 2 * a_pos.y + a_size.y;
    let b_min_x: i64 = 2 * b_pos.x - b_size.x;
    let b_max_x: i64 = 2 * b_pos.x + b_size.x;
    let b_min_y: i64 = 2 * b_pos.y - b_size.y;
    let b_max_y: i64 = 2 * b_pos.y + b_size.y;
    if a_min_x < b_max_x && a_max_x > b_min_x && a_min_y < b_max_y && a_max_y > b_min_y {
        let xc: Option<(Collision, i64)> = if a_min_x < b_min_x && a_max_x > b_min_x && a_max_x
            < b_max_x {
            Some((Collision::Left, b_min_x - a_max_x))
        } else if a_min_x > b_min_x && a_min_x < b_max_x && a_max_x > b_max_x {
            Some((Collision::Right, a_min_x - b_max_x))
        } else {
            None
        };
        let yc: Option<(Collision, i64)> = if a_min_y < b_min_y && a_max_y > b_min_y && a_max_y
            < b_max_y {
            Some((Collision::Bottom, b_min_y - a_max_y))
        } else if a_min_y > b_min_y && a_min_y < b_max_y && a_max_y > b_max_y {
            Some((Collision::Top, a_min_y - b_max_y))
        } else {
            None
        };
        match (xc, yc) {
            (Some((xcol, xd)), Some((ycol, yd))) => {
                let xa: i64 = if xd >= 0 {
                    xd
                } else {
                    -xd
                };
                let ya: i64 = if yd >= 0 {
                    yd
                } else {
                    -yd
                };
                if ya < xa {
                    Some(ycol)
                } else {
                    Some(xcol)
                }
            },
            (Some((xcol, _)), None) => Some(xcol),
            (None, Some((ycol, _))) => Some(ycol),
            (None, None) => Some(Collision::Inside),
        }
    } else {
        None
    }
}

/// Extent of the ball for collision purposes.
pub open spec fn player_size() -> Vec2 {
    Vec2 { x: crate::PLAYER_R, y: crate::PLAYER_R }
}

/// Reflection of the travel direction for one classification: left/right
/// reverse the horizontal component, top/bottom the vertical one, and the
/// ambiguous case reverses both.
pub open spec fn flip_dir(dir: Vec3, c: Collision) -> Vec3 {
    match c {
        Collision::Left => Vec3 { x: (-dir.x) as i64, ..dir },
        Collision::Right => Vec3 { x: (-dir.x) as i64, ..dir },
        Collision::Top => Vec3 { y: (-dir.y) as i64, ..dir },
        Collision::Bottom => Vec3 { y: (-dir.y) as i64, ..dir },
        Collision::Inside => Vec3 { x: (-dir.x) as i64, y: (-dir.y) as i64, ..dir },
    }
}

/// Direction after testing one wall against the ball's predicted position.
pub open spec fn wall_flip(dir: Vec3, w: Wall, pred: Vec3) -> Vec3 {
    match collide_spec(w.translation, w.size, pred, player_size()) {
        Some(c) => flip_dir(dir, c),
        None => dir,
    }
}

/// Direction after testing every wall in order against the predicted
/// position.
pub open spec fn walls_flip(dir: Vec3, walls: Seq<Wall>, pred: Vec3) -> Vec3
    decreases walls.len(),
{
    if walls.len() == 0 {
        dir
    } else {
        walls_flip(wall_flip(dir, walls[0], pred), walls.drop_first(), pred)
    }
}

/// Folding one more wall at the back is the same as flipping once after the
/// fold.
pub proof fn lemma_walls_flip_push(dir: Vec3, walls: Seq<Wall>, w: Wall, pred: Vec3)
    ensures
        walls_flip(dir, walls.push(w), pred) == wall_flip(walls_flip(dir, walls, pred), w, pred),
    decreases walls.len(),
{
    let s1 = walls.push(w);
    if walls.len() == 0 {
        assert(s1[0] == w);
        assert(s1.drop_first() =~= Seq::<Wall>::empty());
        assert(walls_flip(dir, s1, pred) == walls_flip(wall_flip(dir, w, pred), s1.drop_first(), pred));
        assert(walls_flip(wall_flip(dir, w, pred), s1.drop_first(), pred) == wall_flip(dir, w, pred));
        assert(walls_flip(dir, walls, pred) == dir);
    } else {
        assert(s1[0] == walls[0]);
        assert(s1.drop_first() =~= walls.drop_first().push(w));
        lemma_walls_flip_push(wall_flip(dir, walls[0], pred), walls.drop_first(), w, pred);
        assert(walls_flip(dir, s1, pred) == walls_flip(
            wall_flip(dir, walls[0], pred),
            s1.drop_first(),
            pred,
        ));
        assert(walls_flip(dir, walls, pred) == walls_flip(
            wall_flip(dir, walls[0], pred),
            walls.drop_first(),
            pred,
        ));
    }
}

/// Every wall of the sequence is bounded.
pub open spec fn wf_walls(walls: Seq<Wall>) -> bool {
    forall|i: int|
        0 <= i < walls.len() ==> vec3_bounded((#[trigger] walls[i]).translation, crate::WALL_LIMIT)
            && vec2_bounded(walls[i].size, crate::WALL_LIMIT)
}

/// The ball's position one tick ahead: current position plus velocity times
/// direction times elapsed time.
pub open spec fn predicted_pos(t: Vec3, p: Player, dt: int) -> Vec3 {
    Vec3 {
        x: (t.x + crate::num::disp_spec(p.vel as int, p.dir.x as int, dt, 1)) as i64,
        y: (t.y + crate::num::disp_spec(p.vel as int, p.dir.y as int, dt, 1)) as i64,
        z: (t.z + crate::num::disp_spec(p.vel as int, p.dir.z as int, dt, 1)) as i64,
    }
}

/// Tests the ball's predicted next-frame position against every wall and
/// reflects the travel direction for each reported overlap. Only the
/// direction changes; no position correction is applied.
pub fn check_for_collision_with_walls(
    player: &mut Player,
    translation: Vec3,
    walls: &Vec<Wall>,
    dt_ms: u64,
)
    requires
        wf_player(*old(player)),
        vec3_bounded(translation, crate::POS_LIMIT),
        wf_walls(walls@),
        dt_ms <= crate::DT_LIMIT,
    ensures
        *final(player) == (Player {
            dir: walls_flip(
                old(player).dir,
                walls@,
                predicted_pos(translation, *old(player), dt_ms as int),
            ),
            ..*old(player)
        }),
        wf_player(*final(player)),
{
    let dx: i64 = crate::num::scaled_disp(player.vel, player.dir.x, dt_ms, 1);
    let dy: i64 = crate::num::scaled_disp(player.vel, player.dir.y, dt_ms, 1);
    let dz: i64 = crate::num::scaled_disp(player.vel, player.dir.z, dt_ms, 1);
    let pred = Vec3 {
        x: translation.x + dx,
        y: translation.y + dy,
        z: translation.z + dz,
    };
    let ghost pred_s = predicted_pos(translation, *old(player), dt_ms as int);
    let ghost dir0 = old(player).dir;
    let mut i: usize = 0;
    while i < walls.len()
        invariant
            i <= walls.len(),
            wf_walls(walls@),
            vec3_bounded(pred, crate::COORD_LIMIT),
            pred == pred_s,
            *player == (Player { dir: walls_flip(dir0, walls@.subrange(0, i as int), pred_s), ..*old(player) }),
            wf_player(*player),
        decreases walls.len() - i,
    {
        let w = walls[i];
        let c = collide(w.translation, w.size, pred, Vec2 { x: crate::PLAYER_R, y: crate::PLAYER_R });
        let ghost before = player.dir;
        match c {
            Some(Collision::Right) => {
                player.dir.x = -player.dir.x;
            },
            Some(Collision::Left) => {
                player.dir.x = -player.dir.x;
            },
            Some(Collision::Top) => {
                player.dir.y = -player.dir.y;
            },
            Some(Collision::Bottom) => {
                player.dir.y = -player.dir.y;
            },
            Some(Collision::Inside) => {
                player.dir.x = -player.dir.x;
                player.dir.y = -player.dir.y;
            },
            None => {},
        }
        proof {
            assert(player.dir == wall_flip(before, walls@[i as int], pred_s));
            assert(walls@.subrange(0, i as int).push(walls@[i as int]) =~= walls@.subrange(
                0,
                i as int + 1,
            ));
            lemma_walls_flip_push(dir0, walls@.subrange(0, i as int), walls@[i as int], pred_s);
        }
        i = i + 1;
    }
    proof {
        assert(walls@.subrange(0, walls@.len() as int) =~= walls@);
    }
}

/// A predicted position strictly inside a wall rectangle is classified as the
/// ambiguous overlap, and the direction is reversed on both axes.
pub open spec fn rect_inside(
    inner_pos: Vec3,
    inner_size: Vec2,
    outer_pos: Vec3,
    outer_size: Vec2,
) -> bool {
    &&& rect_min_x(outer_pos, outer_size) < rect_min_x(inner_pos, inner_size)
    &&& rect_max_x(inner_pos, inner_size) < rect_max_x(outer_pos, outer_size)
    &&& rect_min_y(outer_pos, outer_size) < rect_min_y(inner_pos, inner_size)
    &&& rect_max_y(inner_pos, inner_size) < rect_max_y(outer_pos, outer_size)
}

/// Collision Resolver, overlapping case: a ball predicted position fully
/// inside a wall rectangle reverses the direction on both axes.
pub proof fn lemma_inside_flips_both(w: Wall, pred: Vec3, dir: Vec3)
    requires
        rect_inside(pred, player_size(), w.translation, w.size),
    ensures
        collide_spec(w.translation, w.size, pred, player_size()) == Some(Collision::Inside),
        wall_flip(dir, w, pred) == (Vec3 { x: (-dir.x) as i64, y: (-dir.y) as i64, ..dir }),
{
}

/// Collision Resolver, disjoint case: without an overlap the direction is
/// unchanged by that wall.
pub proof fn lemma_disjoint_keeps_dir(w: Wall, pred: Vec3, dir: Vec3)
    requires
        !rects_overlap(w.translation, w.size, pred, player_size()),
    ensures
        wall_flip(dir, w, pred) == dir,
{
}

/// When no wall overlaps the predicted position, the whole pass leaves the
/// direction unchanged.
pub proof fn lemma_no_overlap_keeps_dir(dir: Vec3, walls: Seq<Wall>, pred: Vec3)
    requires
        forall|i: int|
            0 <= i < walls.len() ==> !rects_overlap(
                (#[trigger] walls[i]).translation,
                walls[i].size,
                pred,
                player_size(),
            ),
    ensures
        walls_flip(dir, walls, pred) == dir,
    decreases walls.len(),
{
    if walls.len() > 0 {
        assert(!rects_overlap(walls[0].translation, walls[0].size, pred, player_size()));
        lemma_no_overlap_keeps_dir(dir, walls.drop_first(), pred);
    }
}

} // verus!
