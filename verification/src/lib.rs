//! Simulation core of a small side-scrolling game: a player sprite jumps
//! against gravity while obstacles spawn on a repeating timer, scroll toward
//! the player, and are checked for axis-aligned collisions and one-shot
//! scoring.
//!
//! All lengths are measured in world units; positions are stored in
//! milliunits (thousandths of a unit) so that per-tick motion is exact
//! integer arithmetic. Velocities are whole units per second and tick
//! lengths are given in milliseconds, so a displacement `velocity * dt_ms`
//! lands directly in milliunits.

use vstd::prelude::*;

pub mod collision;
pub mod laws;
pub mod obstacle;
pub mod player;
pub mod timer;
pub mod world;

verus! {

/// Milliunits per world unit: the fixed-point scale of all positions.
pub const MILLI: i64 = 1000;

/// Width of the visible playfield, units.
pub const WINDOW_WIDTH: i64 = 800;

/// Hard ceiling on a per-entity gravity factor, applied each tick.
pub const GRAVITY_MAX: i64 = 10;

/// Side length of the standard square sprite, units.
pub const SPRITE_SIZE: i64 = 100;

/// Top edge of the sand floor, units: one sprite above the bottom window
/// border.
pub const SAND_TOP_OF_FLOOR_Y: i64 = -300;

/// Bottom edge of the sand floor, units: the bottom window border.
pub const SAND_BOT_OF_FLOOR_Y: i64 = -400;

/// Horizontal position at which new obstacles appear, units (off-screen
/// to the right of the playfield).
pub const GENERAL_SPAWN_POINT_X: i64 = WINDOW_WIDTH + 500;

/// Uniform leftward scroll speed of obstacles, units per second.
pub const SCROLL_SPEED: i64 = 200;

/// Gravity factor a freshly spawned player starts with, units per second
/// added to vertical velocity each tick.
pub const DEFAULT_GRAVITY: i64 = -2;

/// Vertical velocity a jump sets, units per second.
pub const DEFAULT_JUMP_IMPULSE: i64 = 150;

/// Period of the obstacle spawn timer, milliseconds.
pub const SPAWN_PERIOD_MS: u64 = 2000;

/// Height, in sprite tiles, of the short ("coral") obstacle kind.
pub const CORAL_HEIGHT_TILES: i64 = 2;

/// Height, in sprite tiles, of the tall ("seaweed") obstacle kind.
pub const SEAWEED_HEIGHT_TILES: i64 = 3;

/// Inward margin on both horizontal bounds of an obstacle's collision box,
/// units (a tuning constant, not part of the sprite).
pub const COLLISION_X_MARGIN: i64 = 20;

/// Downward adjustment of the upper vertical bound of an obstacle's
/// collision box, units (a tuning constant, not part of the sprite).
pub const COLLISION_Y_TRIM: i64 = 200;

/// Largest tick length the simulation accepts, milliseconds.
pub const DT_LIMIT_MS: u64 = 1_000_000_000_000;

/// Largest spawn-timer period the simulation accepts, milliseconds.
pub const PERIOD_LIMIT_MS: u64 = 1_000_000_000_000;

/// Number of floor tiles laid across the playfield: the window width
/// divided by the sprite size.
pub const FLOOR_TILE_COUNT: i64 = 8;

/// Whether a mathematical value fits in an `i64` field.
pub open spec fn in_i64(x: int) -> bool {
    i64::MIN <= x <= i64::MAX
}

/// Precondition violations of the simulation: all are programming errors,
/// reported rather than silently swallowed.
#[derive(Clone, Copy, Debug, PartialEq, Eq, Structural)]
pub enum SimError {
    /// A pass needed the single player entity, but none exists.
    MissingPlayer,
    /// A pass needed the single player entity, but several exist.
    AmbiguousPlayer,
    /// A collision check met an obstacle without a render size.
    MissingRenderSize,
}

} // verus!
