//! The player entity's physics state and the two passes that mutate it:
//! gravity integration and the jump impulse.

use vstd::prelude::*;

use crate::{in_i64, DEFAULT_GRAVITY, DEFAULT_JUMP_IMPULSE, GRAVITY_MAX};

verus! {

/// Mathematical value of a player's physics state: position in milliunits,
/// velocity and gravity in units per second, jump impulse in units per
/// second.
pub ghost struct PlayerModel {
    pub x: int,
    pub y: int,
    pub vx: int,
    pub vy: int,
    pub gravity: int,
    pub jump_impulse: int,
}

/// A player entity: transform, velocity, gravity factor and jump impulse.
///
/// Positions are milliunits; velocities, the gravity factor and the jump
/// impulse are units per second.
#[derive(Clone, Copy, Debug)]
pub struct PlayerState {
    pub x: i64,
    pub y: i64,
    pub vx: i64,
    pub vy: i64,
    pub gravity: i64,
    pub jump_impulse: i64,
}

impl View for PlayerState {
    type V = PlayerModel;

    open spec fn view(&self) -> PlayerModel {
        PlayerModel {
            x: self.x as int,
            y: self.y as int,
            vx: self.vx as int,
            vy: self.vy as int,
            gravity: self.gravity as int,
            jump_impulse: self.jump_impulse as int,
        }
    }
}

/// The physics state a freshly spawned player carries: at the origin, at
/// rest, with the default gravity factor and jump impulse.
pub open spec fn default_player() -> PlayerModel {
    PlayerModel {
        x: 0,
        y: 0,
        vx: 0,
        vy: 0,
        gravity: DEFAULT_GRAVITY as int,
        jump_impulse: DEFAULT_JUMP_IMPULSE as int,
    }
}

impl Default for PlayerState {
    fn default() -> (p: PlayerState)
        ensures
            p@ == default_player(),
    {
        PlayerState {
            x: 0,
            y: 0,
            vx: 0,
            vy: 0,
            gravity: DEFAULT_GRAVITY,
            jump_impulse: DEFAULT_JUMP_IMPULSE,
        }
    }
}

/// A gravity factor after the per-tick clamp: at most `GRAVITY_MAX`.
pub open spec fn clamp_gravity(g: int) -> int {
    if g > GRAVITY_MAX {
        GRAVITY_MAX as int
    } else {
        g
    }
}

/// Clamps a gravity factor to at most `GRAVITY_MAX`.
pub fn clamp_gravity_exec(g: i64) -> (r: i64)
    ensures
        r == clamp_gravity(g as int),
{
    if g > GRAVITY_MAX {
        GRAVITY_MAX
    } else {
        g
    }
}

/// One gravity-integration tick on a player: clamp the gravity factor, add
/// it to the vertical velocity, and advance the vertical position by the
/// new velocity times the elapsed time. Horizontal state is untouched.
pub open spec fn gravity_step(p: PlayerModel, dt_ms: int) -> PlayerModel {
    let g = clamp_gravity(p.gravity);
    let vy = p.vy + g;
    PlayerModel { gravity: g, vy: vy, y: p.y + vy * dt_ms, ..p }
}

/// The machine limits a gravity-integration tick needs: the new velocity,
/// the displacement and the new position all fit in `i64`.
pub open spec fn gravity_step_fits(p: PlayerModel, dt_ms: int) -> bool {
    let g = clamp_gravity(p.gravity);
    let vy = p.vy + g;
    &&& in_i64(vy)
    &&& in_i64(vy * dt_ms)
    &&& in_i64(p.y + vy * dt_ms)
}

/// Runs one gravity-integration tick on a player in place.
pub fn apply_gravity_to(p: &mut PlayerState, dt_ms: u64)
    requires
        dt_ms <= crate::DT_LIMIT_MS,
        gravity_step_fits(old(p)@, dt_ms as int),
    ensures
        final(p)@ == gravity_step(old(p)@, dt_ms as int),
        final(p).gravity <= GRAVITY_MAX,
{
    let g = clamp_gravity_exec(p.gravity);
    p.gravity = g;
    p.vy = p.vy + g;
    p.y = p.y + p.vy * (dt_ms as i64);
}

/// The jump pass on a player: a just-pressed edge overwrites the vertical
/// velocity with the jump impulse; otherwise nothing changes.
pub open spec fn jump_step(p: PlayerModel, just_pressed: bool) -> PlayerModel {
    if just_pressed {
        PlayerModel { vy: p.jump_impulse, ..p }
    } else {
        p
    }
}

/// Runs the jump pass on a player in place.
pub fn apply_jump_to(p: &mut PlayerState, just_pressed: bool)
    ensures
        final(p)@ == jump_step(old(p)@, just_pressed),
{
    if just_pressed {
        p.vy = p.jump_impulse;
    }
}

} // verus!
