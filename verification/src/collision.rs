//! Axis-aligned bounding-box collision between the player and obstacles.
//!
//! The player's box is its fixed sprite square around its center. An
//! obstacle's box takes the obstacle's render size as half-extents, pulls
//! both horizontal bounds inward by a fixed margin, and trims the upper
//! vertical bound — the reference tuning of the game, kept as named
//! constants.

use vstd::prelude::*;

use crate::obstacle::{ObstacleModel, ObstacleState};
use crate::player::{PlayerModel, PlayerState};
use crate::{SimError, COLLISION_X_MARGIN, COLLISION_Y_TRIM, MILLI, SPRITE_SIZE};

verus! {

/// An axis-aligned box, bounds in milliunits.
pub ghost struct BoxModel {
    pub xmin: int,
    pub xmax: int,
    pub ymin: int,
    pub ymax: int,
}

/// The player's bounding box: half the sprite size on each side of its
/// center.
pub open spec fn player_box(p: PlayerModel) -> BoxModel {
    let half = SPRITE_SIZE / 2 * MILLI;
    BoxModel { xmin: p.x - half, xmax: p.x + half, ymin: p.y - half, ymax: p.y + half }
}

/// An obstacle's bounding box for a given render size: the size acts as
/// half-extents, the horizontal bounds are pulled inward by
/// `COLLISION_X_MARGIN`, and the upper vertical bound is trimmed by
/// `COLLISION_Y_TRIM`.
pub open spec fn obstacle_box(o: ObstacleModel, s: crate::obstacle::RenderSizeModel) -> BoxModel {
    BoxModel {
        xmin: o.x - s.w * MILLI + COLLISION_X_MARGIN * MILLI,
        xmax: o.x + s.w * MILLI - COLLISION_X_MARGIN * MILLI,
        ymin: o.y - s.h * MILLI,
        ymax: o.y + s.h * MILLI - COLLISION_Y_TRIM * MILLI,
    }
}

/// The standard AABB test: both axes' intervals intersect.
pub open spec fn boxes_overlap(a: BoxModel, b: BoxModel) -> bool {
    a.xmin <= b.xmax && a.xmax >= b.xmin && a.ymin <= b.ymax && a.ymax >= b.ymin
}

/// Whether the player overlaps an obstacle: the obstacle has a render size
/// and the two boxes intersect.
pub open spec fn player_hits_obstacle(p: PlayerModel, o: ObstacleModel) -> bool {
    o.size is Some && boxes_overlap(player_box(p), obstacle_box(o, o.size->0))
}

/// Tests one player against one obstacle. An obstacle without a render
/// size is malformed and reported as such. Box arithmetic is done in
/// `i128`, which cannot overflow on `i64` coordinates and sizes.
pub fn check_player_obstacle_overlap(p: &PlayerState, o: &ObstacleState) -> (r: Result<
    bool,
    SimError,
>)
    ensures
        o@.size is Some ==> r == Result::<bool, SimError>::Ok(player_hits_obstacle(p@, o@)),
        o@.size is None ==> r == Result::<bool, SimError>::Err(SimError::MissingRenderSize),
{
    match o.size {
        Option::None => Err(SimError::MissingRenderSize),
        Option::Some(s) => {
            let mm: i128 = MILLI as i128;
            let half: i128 = (SPRITE_SIZE / 2) as i128 * mm;
            let p_xmin = p.x as i128 - half;
            let p_xmax = p.x as i128 + half;
            let p_ymin = p.y as i128 - half;
            let p_ymax = p.y as i128 + half;
            let wm = s.w as i128 * mm;
            let hm = s.h as i128 * mm;
            let o_xmin = o.x as i128 - wm + COLLISION_X_MARGIN as i128 * mm;
            let o_xmax = o.x as i128 + wm - COLLISION_X_MARGIN as i128 * mm;
            let o_ymin = o.y as i128 - hm;
            let o_ymax = o.y as i128 + hm - COLLISION_Y_TRIM as i128 * mm;
            Ok(p_xmin <= o_xmax && p_xmax >= o_xmin && p_ymin <= o_ymax && p_ymax >= o_ymin)
        },
    }
}

} // verus!
