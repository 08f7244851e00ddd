//! Gravity integration and jump handling, tick by tick.

use swimming_rustacean::player::PlayerState;
use swimming_rustacean::world::World;
use swimming_rustacean::SimError;

/// One 1.0 s tick with no jump input on a fresh player at the origin:
/// gravity -2 clamped at 10 gives velocity -2 units/s and position -2 units.
#[test]
fn end_to_end_first_tick() {
    let mut w = World::new();
    w.spawn_player();
    let r = w.tick(1000, false);
    assert_eq!(r, Ok(false));
    assert_eq!(w.players.len(), 1);
    assert_eq!(w.players[0].vy, -2);
    assert_eq!(w.players[0].y, -2000);
    assert_eq!(w.players[0].x, 0);
    assert_eq!(w.players[0].vx, 0);
    assert_eq!(w.score(), 0);
}

/// After the gravity pass runs, every gravity factor is at most the cap.
#[test]
fn gravity_clamped_after_pass() {
    let mut w = World::new();
    w.spawn_player();
    w.players[0].gravity = 50;
    w.apply_gravity(100);
    assert_eq!(w.players[0].gravity, 10);
    assert_eq!(w.players[0].vy, 10);
    assert_eq!(w.players[0].y, 1000);
}

/// A gravity factor below the cap is not touched by the clamp.
#[test]
fn gravity_below_cap_unchanged() {
    let mut w = World::new();
    w.spawn_player();
    w.apply_gravity(500);
    assert_eq!(w.players[0].gravity, -2);
    assert_eq!(w.players[0].vy, -2);
    assert_eq!(w.players[0].y, -1000);
}

/// Gravity has no horizontal effect.
#[test]
fn gravity_no_horizontal_effect() {
    let mut w = World::new();
    w.spawn_player();
    w.players[0].x = 123_456;
    w.players[0].vx = 7;
    w.apply_gravity(1000);
    assert_eq!(w.players[0].x, 123_456);
    assert_eq!(w.players[0].vx, 7);
}

/// A just-pressed edge sets the vertical velocity to exactly the jump
/// impulse on that tick; holding the key reapplies nothing on the next tick.
#[test]
fn jump_edge_applies_once_while_held() {
    let mut w = World::new();
    w.spawn_player();
    assert_eq!(w.players[0].vy, 0);
    let r = w.tick(100, true);
    assert_eq!(r, Ok(false));
    assert_eq!(w.players[0].vy, 150);
    let r = w.tick(100, true);
    assert_eq!(r, Ok(false));
    assert_eq!(w.players[0].vy, 148);
}

/// Releasing and pressing again makes a new edge, which jumps again.
#[test]
fn jump_new_edge_after_release() {
    let mut w = World::new();
    w.spawn_player();
    w.tick(100, true).unwrap();
    w.tick(100, false).unwrap();
    assert_eq!(w.players[0].vy, 148);
    w.tick(100, true).unwrap();
    assert_eq!(w.players[0].vy, 150);
}

/// The jump overwrites the velocity, it does not add to it.
#[test]
fn jump_overwrites_velocity() {
    let mut w = World::new();
    w.spawn_player();
    w.players[0].vy = -77;
    w.handle_player_jump(true);
    assert_eq!(w.players[0].vy, 150);
}

/// A fresh player carries the default physics state.
#[test]
fn default_player_state() {
    let p = PlayerState::default();
    assert_eq!(p.x, 0);
    assert_eq!(p.y, 0);
    assert_eq!(p.vx, 0);
    assert_eq!(p.vy, 0);
    assert_eq!(p.gravity, -2);
    assert_eq!(p.jump_impulse, 150);
}

/// A tick without any player reports the missing singleton.
#[test]
fn tick_without_player_reports_missing() {
    let mut w = World::new();
    let r = w.tick(100, false);
    assert_eq!(r, Err(SimError::MissingPlayer));
}

/// A tick with two players reports the ambiguous singleton.
#[test]
fn tick_with_two_players_reports_ambiguous() {
    let mut w = World::new();
    w.spawn_player();
    w.spawn_player();
    let r = w.tick(100, false);
    assert_eq!(r, Err(SimError::AmbiguousPlayer));
}
