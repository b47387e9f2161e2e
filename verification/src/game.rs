//! Level Progression Controller and the per-tick driver: owns the current
//! level index, the session-wide stroke counter and the live play field, and
//! advances the whole simulation one tick at a time in a fixed order:
//! collision check against the predicted position, stroke input, position
//! integration and decay, hole capture, then level-advance handling.

use vstd::prelude::*;

use crate::collision::{
    check_for_collision_with_walls, predicted_pos, walls_flip, wf_walls, Wall,
};
use crate::geom::{vec2_bounded, vec3_bounded, Transform, Vec2, Vec3};
use crate::hole::{
    check_for_collision_with_hole, hole_spec, wf_timer, Hole, HoleStep, LevelCount, LevelUpEvent,
    ShrinkTimer,
};
use crate::levels::{get_level, level_spec, valid_extents, wf_level, LevelModel};
use crate::motion::{ball_movement, decay_spec, move_spec};
use crate::stroke::{
    bar_default, cursor_default, input, input_spec, player_default, update_cursor_coords,
    wf_player, BarColor, CursorComponent, Player, PowerBar,
};

verus! {

/// The whole simulation state. Exactly one ball, one hole, one power bar and
/// one cursor entity exist — the cardinality invariant is carried by the
/// structure itself.
pub struct GameState {
    pub level_count: LevelCount,
    pub stroke_count: u16,
    pub walls: Vec<Wall>,
    pub transform: Transform,
    pub player: Player,
    pub hole: Hole,
    pub bar: PowerBar,
    pub cursor: CursorComponent,
    pub timer: ShrinkTimer,
}

/// Mathematical model of the simulation state.
#[verifier::ext_equal]
pub struct GameModel {
    pub level_count: LevelCount,
    pub stroke_count: u16,
    pub walls: Seq<Wall>,
    pub transform: Transform,
    pub player: Player,
    pub hole: Hole,
    pub bar: PowerBar,
    pub cursor: CursorComponent,
    pub timer: ShrinkTimer,
}

impl View for GameState {
    type V = GameModel;

    open spec fn view(&self) -> GameModel {
        GameModel {
            level_count: self.level_count,
            stroke_count: self.stroke_count,
            walls: self.walls@,
            transform: self.transform,
            player: self.player,
            hole: self.hole,
            bar: self.bar,
            cursor: self.cursor,
            timer: self.timer,
        }
    }
}

/// The wall entities spawned from a layout, index for index.
pub open spec fn walls_of_level(l: LevelModel) -> Seq<Wall> {
    Seq::new(
        l.wall_translation.len(),
        |i: int| Wall { translation: l.wall_translation[i], size: l.wall_size[i] },
    )
}

/// The state after tearing down the play field and spawning layout `l`: the
/// catalog's walls, a fresh ball at the spawn position with full scale, the
/// hole at its target, and a fresh power bar. The session counters and the
/// shrink timer carry over; the timer is deliberately not reset.
pub open spec fn spawn_model(g: GameModel, l: LevelModel) -> GameModel {
    GameModel {
        walls: walls_of_level(l),
        transform: Transform {
            translation: l.player_translation,
            scale: Vec2 { x: crate::SCALE_ONE, y: crate::SCALE_ONE },
        },
        player: player_default(),
        hole: Hole { translation: l.hole_translation },
        bar: bar_default(),
        ..g
    }
}

/// Bounds every reachable state satisfies, apart from the ball position,
/// which is bounded separately because free motion can carry it outward.
pub open spec fn wf_state(g: GameModel) -> bool {
    &&& wf_player(g.player)
    &&& wf_walls(g.walls)
    &&& wf_timer(g.timer)
    &&& vec3_bounded(g.cursor.translation, crate::CURSOR_LIMIT)
    &&& vec3_bounded(g.hole.translation, crate::WALL_LIMIT)
    &&& vec2_bounded(g.transform.scale, crate::SCALE_ONE)
}

/// The outside world's contribution to one tick: the elapsed time, the
/// cursor sample if the cursor was inside the window, the mouse-button
/// transitions, and the current viewport half-extents.
pub struct TickInput {
    pub dt_ms: u64,
    pub cursor_sample: Option<Vec2>,
    pub pressed: bool,
    pub just_released: bool,
    pub x_max: i64,
    pub y_max: i64,
}

/// Machine bounds on one tick's input.
pub open spec fn wf_input(inp: TickInput) -> bool {
    &&& inp.dt_ms <= crate::DT_LIMIT
    &&& valid_extents(inp.x_max, inp.y_max)
    &&& (inp.cursor_sample is Some ==> -crate::CURSOR_LIMIT <= inp.cursor_sample->0.x
        <= crate::CURSOR_LIMIT && -crate::CURSOR_LIMIT <= inp.cursor_sample->0.y
        <= crate::CURSOR_LIMIT)
}

/// One whole tick: cursor update, wall collision against the predicted
/// position, stroke input, integration and decay, hole capture, and — when a
/// capture completed — the rebuild of the play field from the catalog.
/// Returns the new state and whether a level advance fired.
pub open spec fn tick_spec(g: GameModel, inp: TickInput) -> (GameModel, bool) {
    let dt = inp.dt_ms as int;
    let cur = match inp.cursor_sample {
        Some(s) => CursorComponent { translation: Vec3 { x: s.x, y: s.y, z: -1000i64 } },
        None => g.cursor,
    };
    let p1 = Player {
        dir: walls_flip(
            g.player.dir,
            g.walls,
            predicted_pos(g.transform.translation, g.player, dt),
        ),
        ..g.player
    };
    let (p2, strokes2, bar2) = input_spec(
        p1,
        g.transform.translation,
        cur.translation,
        g.bar,
        g.stroke_count,
        inp.pressed,
        inp.just_released,
        dt,
    );
    let t3 = Transform {
        translation: move_spec(g.transform.translation, p2, dt),
        scale: g.transform.scale,
    };
    let p3 = Player { vel: decay_spec(p2.vel), ..p2 };
    let hs = hole_spec(t3, p3, g.hole.translation, g.timer, g.level_count, dt);
    let g4 = GameModel {
        level_count: hs.level_count,
        stroke_count: strokes2,
        walls: g.walls,
        transform: hs.transform,
        player: hs.player,
        hole: g.hole,
        bar: bar2,
        cursor: cur,
        timer: hs.timer,
    };
    if hs.advance {
        (spawn_model(g4, level_spec(hs.level_count.0, inp.x_max, inp.y_max)), true)
    } else {
        (g4, false)
    }
}

impl GameState {
    /// Level Progression Controller, rebuild: destroys every entity of the
    /// current play field and spawns the catalog layout of the current level
    /// index for the given viewport half-extents.
    fn load_new_levels(&mut self, x_max: i64, y_max: i64)
        requires
            valid_extents(x_max, y_max),
        ensures
            final(self)@ == spawn_model(
                old(self)@,
                level_spec(old(self).level_count.0, x_max, y_max),
            ),
            wf_walls(final(self).walls@),
            wf_player(final(self).player),
            vec3_bounded(final(self).transform.translation, crate::WALL_LIMIT),
            vec3_bounded(final(self).hole.translation, crate::WALL_LIMIT),
            vec2_bounded(final(self).transform.scale, crate::SCALE_ONE),
    {
        proof {
            crate::levels::lemma_level_spec_wf(self.level_count.0, x_max, y_max);
        }
        let level = get_level(self.level_count.0, x_max, y_max);
        let mut walls: Vec<Wall> = Vec::new();
        let ghost target = walls_of_level(level@);
        let mut i: usize = 0;
        while i < level.wall_translation.len()
            invariant
                wf_level(level@),
                level@ == level_spec(old(self).level_count.0, x_max, y_max),
                target == walls_of_level(level@),
                i <= level.wall_translation.len(),
                walls@.len() == i,
                forall|j: int| 0 <= j < i ==> walls@[j] == target[j],
            decreases level.wall_translation.len() - i,
        {
            walls.push(
                Wall { translation: level.wall_translation[i], size: level.wall_size[i] },
            );
            i = i + 1;
        }
        proof {
            assert(walls@ =~= target);
        }
        self.walls = walls;
        self.transform = Transform {
            translation: level.player_translation,
            scale: Vec2 { x: crate::SCALE_ONE, y: crate::SCALE_ONE },
        };
        self.player = Player::default();
        self.hole = Hole { translation: level.hole_translation };
        self.bar = PowerBar {
            translation: Vec3 { x: 0, y: 0, z: -2000 },
            scale_y: crate::SCALE_ONE,
            color: BarColor::Indigo,
        };
        proof {
            assert(self@ =~= spawn_model(
                old(self)@,
                level_spec(old(self).level_count.0, x_max, y_max),
            ));
        }
    }

    /// The state at program start: counters at zero, the shrink timer at its
    /// fixed period, and the play field of level 0.
    pub fn new(x_max: i64, y_max: i64) -> (g: GameState)
        requires
            valid_extents(x_max, y_max),
        ensures
            g@ == initial_model(x_max, y_max),
            wf_state(g@),
            vec3_bounded(g.transform.translation, crate::POS_LIMIT),
    {
        let mut g = GameState {
            level_count: LevelCount(0),
            stroke_count: 0,
            walls: Vec::new(),
            transform: Transform {
                translation: Vec3 { x: 0, y: 0, z: 0 },
                scale: Vec2 { x: crate::SCALE_ONE, y: crate::SCALE_ONE },
            },
            player: Player::default(),
            hole: Hole { translation: Vec3 { x: 0, y: 0, z: 0 } },
            bar: PowerBar {
                translation: Vec3 { x: 0, y: 0, z: -2000 },
                scale_y: crate::SCALE_ONE,
                color: BarColor::Indigo,
            },
            cursor: CursorComponent { translation: Vec3 { x: 0, y: 0, z: -1000 } },
            timer: ShrinkTimer { period_ms: crate::SHRINK_PERIOD_MS, elapsed_ms: 0 },
        };
        g.load_new_levels(x_max, y_max);
        proof {
            assert(g@ =~= initial_model(x_max, y_max));
            crate::levels::lemma_level_spec_wf(0, x_max, y_max);
        }
        g
    }

    /// Level Progression Controller, dispatch: on a level-advance
    /// notification the play field is rebuilt from the catalog; without one,
    /// nothing changes.
    pub fn on_level_up(&mut self, ev: Option<LevelUpEvent>, x_max: i64, y_max: i64)
        requires
            valid_extents(x_max, y_max),
        ensures
            (ev is Some) ==> final(self)@ == spawn_model(
                old(self)@,
                level_spec(old(self).level_count.0, x_max, y_max),
            ),
            (ev is None) ==> final(self)@ == old(self)@,
    {
        match ev {
            Some(_) => {
                self.load_new_levels(x_max, y_max);
            },
            None => {},
        }
    }

    /// One simulation tick, in the documented deterministic order. Returns
    /// the level-advance notification when this tick completed a capture.
    pub fn tick(&mut self, inp: TickInput) -> (ev: Option<LevelUpEvent>)
        requires
            wf_state(old(self)@),
            vec3_bounded(old(self).transform.translation, crate::POS_LIMIT),
            wf_input(inp),
            old(self).stroke_count < u16::MAX,
            old(self).level_count.0 < u16::MAX,
        ensures
            final(self)@ == tick_spec(old(self)@, inp).0,
            (ev is Some) == tick_spec(old(self)@, inp).1,
            wf_state(final(self)@),
            vec3_bounded(
                final(self).transform.translation,
                (crate::POS_LIMIT + crate::DISP_LIMIT) as i64,
            ),
    {
        update_cursor_coords(&mut self.cursor, inp.cursor_sample);
        check_for_collision_with_walls(
            &mut self.player,
            self.transform.translation,
            &self.walls,
            inp.dt_ms,
        );
        input(
            &mut self.player,
            &self.transform,
            &self.cursor,
            &mut self.bar,
            &mut self.stroke_count,
            inp.pressed,
            inp.just_released,
            inp.dt_ms,
        );
        ball_movement(&mut self.transform, &mut self.player, inp.dt_ms);
        let ev = check_for_collision_with_hole(
            &mut self.transform,
            &mut self.player,
            &self.hole,
            &mut self.timer,
            &mut self.level_count,
            inp.dt_ms,
        );
        match ev {
            Some(e) => {
                self.load_new_levels(inp.x_max, inp.y_max);
                proof {
                    crate::levels::lemma_level_spec_wf(
                        self.level_count.0,
                        inp.x_max,
                        inp.y_max,
                    );
                    assert(self@ =~= tick_spec(old(self)@, inp).0);
                }
                Some(e)
            },
            None => {
                proof {
                    assert(self@ =~= tick_spec(old(self)@, inp).0);
                }
                None
            },
        }
    }
}

/// The state at program start, before the first tick.
pub open spec fn initial_model(x_max: i64, y_max: i64) -> GameModel {
    spawn_model(
        GameModel {
            level_count: LevelCount(0),
            stroke_count: 0,
            walls: Seq::empty(),
            transform: Transform {
                translation: Vec3 { x: 0, y: 0, z: 0 },
                scale: Vec2 { x: crate::SCALE_ONE, y: crate::SCALE_ONE },
            },
            player: player_default(),
            hole: Hole { translation: Vec3 { x: 0, y: 0, z: 0 } },
            bar: bar_default(),
            cursor: cursor_default(),
            timer: ShrinkTimer { period_ms: crate::SHRINK_PERIOD_MS, elapsed_ms: 0 },
        },
        level_spec(0, x_max, y_max),
    )
}

/// Level Progression Controller, rebuild law: after an advance no entity of
/// the old play field remains — the new state holds exactly the catalog's
/// walls, one fresh ball at the catalog spawn, one hole at the catalog
/// target and one fresh power bar — while the session-wide stroke counter
/// and the shrink timer carry over unchanged.
pub proof fn lemma_advance_rebuilds_field(g: GameModel, x_max: i64, y_max: i64)
    ensures
        ({
            let l = level_spec(g.level_count.0, x_max, y_max);
            let s = spawn_model(g, l);
            &&& s.walls == walls_of_level(l)
            &&& s.walls.len() == l.wall_translation.len()
            &&& forall|i: int|
                0 <= i < s.walls.len() ==> (#[trigger] s.walls[i]).translation
                    == l.wall_translation[i] && s.walls[i].size == l.wall_size[i]
            &&& s.transform.translation == l.player_translation
            &&& s.player.vel == 0 && !s.player.selected
            &&& s.transform.scale == (Vec2 { x: crate::SCALE_ONE, y: crate::SCALE_ONE })
            &&& s.player == player_default()
            &&& s.hole.translation == l.hole_translation
            &&& s.bar == bar_default()
            &&& s.stroke_count == g.stroke_count
            &&& s.level_count == g.level_count
            &&& s.timer == g.timer
        }),
{
}

} // verus!
