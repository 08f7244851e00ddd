//! Obstacle entities: spawned off-screen with a randomly drawn kind,
//! scrolled uniformly leftward, and each carrying a one-shot score gate.

use vstd::prelude::*;

use crate::{
    in_i64, CORAL_HEIGHT_TILES, GENERAL_SPAWN_POINT_X, MILLI, SAND_TOP_OF_FLOOR_Y, SCROLL_SPEED,
    SEAWEED_HEIGHT_TILES, SPRITE_SIZE,
};

verus! {

/// Mathematical value of a render size, units.
pub ghost struct RenderSizeModel {
    pub w: int,
    pub h: int,
}

/// Mathematical value of a score gate: threshold in milliunits and the
/// one-shot flag.
pub ghost struct GateModel {
    pub x: int,
    pub passed: bool,
}

/// Mathematical value of an obstacle, positions in milliunits.
pub ghost struct ObstacleModel {
    pub x: int,
    pub y: int,
    pub size: Option<RenderSizeModel>,
    pub gate: GateModel,
}

/// The drawn size a sprite is rendered (and collision-checked) at, units.
#[derive(Clone, Copy, Debug)]
pub struct RenderSize {
    pub w: i64,
    pub h: i64,
}

impl View for RenderSize {
    type V = RenderSizeModel;

    open spec fn view(&self) -> RenderSizeModel {
        RenderSizeModel { w: self.w as int, h: self.h as int }
    }
}

/// A horizontal scoring threshold (milliunits) with its one-shot flag:
/// `passed` goes from false to true at most once, when the player first
/// reaches the threshold.
#[derive(Clone, Copy, Debug)]
pub struct ScoreGate {
    pub x: i64,
    pub passed: bool,
}

impl View for ScoreGate {
    type V = GateModel;

    open spec fn view(&self) -> GateModel {
        GateModel { x: self.x as int, passed: self.passed }
    }
}

/// An obstacle entity: transform (milliunits), an optional render size
/// (units), and its score gate. Spawned obstacles always carry a render
/// size; the collision pass reports one that lacks it as malformed.
#[derive(Clone, Copy, Debug)]
pub struct ObstacleState {
    pub x: i64,
    pub y: i64,
    pub size: Option<RenderSize>,
    pub gate: ScoreGate,
}

impl View for ObstacleState {
    type V = ObstacleModel;

    open spec fn view(&self) -> ObstacleModel {
        ObstacleModel {
            x: self.x as int,
            y: self.y as int,
            size: match self.size {
                Option::Some(s) => Option::Some(s@),
                Option::None => Option::None,
            },
            gate: self.gate@,
        }
    }
}

/// The obstacle a given random draw produces: a draw of 1 is the short
/// ("coral") kind, any other draw the tall ("seaweed") kind. The obstacle
/// appears at the fixed spawn point, standing on the floor top (its center
/// is half its height above it), with the standard sprite width, and its
/// score gate is at the spawn position, not yet passed.
pub open spec fn obstacle_from_draw(draw: int) -> ObstacleModel {
    let tiles = if draw == 1 {
        CORAL_HEIGHT_TILES as int
    } else {
        SEAWEED_HEIGHT_TILES as int
    };
    let h = SPRITE_SIZE * tiles;
    ObstacleModel {
        x: GENERAL_SPAWN_POINT_X * MILLI,
        y: SAND_TOP_OF_FLOOR_Y * MILLI + h * MILLI / 2,
        size: Option::Some(RenderSizeModel { w: SPRITE_SIZE as int, h: h }),
        gate: GateModel { x: GENERAL_SPAWN_POINT_X * MILLI, passed: false },
    }
}

/// Builds the obstacle a given random draw produces.
pub fn spawn_obstacle_from_draw(draw: i32) -> (o: ObstacleState)
    ensures
        o@ == obstacle_from_draw(draw as int),
{
    let tiles = if draw == 1 {
        CORAL_HEIGHT_TILES
    } else {
        SEAWEED_HEIGHT_TILES
    };
    let h = SPRITE_SIZE * tiles;
    ObstacleState {
        x: GENERAL_SPAWN_POINT_X * MILLI,
        y: SAND_TOP_OF_FLOOR_Y * MILLI + h * MILLI / 2,
        size: Option::Some(RenderSize { w: SPRITE_SIZE, h }),
        gate: ScoreGate { x: GENERAL_SPAWN_POINT_X * MILLI, passed: false },
    }
}

/// One scroll tick on an obstacle: its position and its score gate move
/// leftward in lockstep by `SCROLL_SPEED` units per second. Nothing else
/// changes.
pub open spec fn move_obstacle(o: ObstacleModel, dt_ms: int) -> ObstacleModel {
    ObstacleModel {
        x: o.x - SCROLL_SPEED * dt_ms,
        gate: GateModel { x: o.gate.x - SCROLL_SPEED * dt_ms, ..o.gate },
        ..o
    }
}

/// The machine limits a scroll tick needs: the moved position and gate
/// threshold fit in `i64`.
pub open spec fn move_fits(o: ObstacleModel, dt_ms: int) -> bool {
    &&& in_i64(o.x - SCROLL_SPEED * dt_ms)
    &&& in_i64(o.gate.x - SCROLL_SPEED * dt_ms)
}

/// Runs one scroll tick on an obstacle in place.
pub fn move_obstacle_by(o: &mut ObstacleState, dt_ms: u64)
    requires
        dt_ms <= crate::DT_LIMIT_MS,
        move_fits(old(o)@, dt_ms as int),
    ensures
        final(o)@ == move_obstacle(old(o)@, dt_ms as int),
{
    let d = SCROLL_SPEED * (dt_ms as i64);
    o.x = o.x - d;
    o.gate.x = o.gate.x - d;
}

/// One score pass on a gate: it becomes passed as soon as the player's
/// horizontal position (milliunits) reaches its threshold, and stays passed.
pub open spec fn gate_step(g: GateModel, px: int) -> GateModel {
    GateModel { x: g.x, passed: g.passed || px >= g.x }
}

/// Whether this score pass is the one on which the flag first flips (and
/// which therefore contributes exactly one point).
pub open spec fn gate_newly_passed(g: GateModel, px: int) -> bool {
    !g.passed && px >= g.x
}

} // verus!
