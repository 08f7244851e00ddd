//! Axis-aligned collision detection between the player and obstacles.

use swimming_rustacean::obstacle::{ObstacleState, RenderSize, ScoreGate};
use swimming_rustacean::world::World;
use swimming_rustacean::SimError;

/// A box placed to overlap the player's by 10 units on both axes signals a
/// collision; shifted 1000 units away it does not.
///
/// Player box: x and y both [-50, 50] units. Obstacle at (120, -40) with
/// size (100, 200): box x in [40, 200], y in [-240, -40] — a 10-unit
/// overlap on each axis.
#[test]
fn collision_detected_with_ten_unit_overlap() {
    let mut w = World::new();
    w.spawn_player();
    w.obstacles.push(ObstacleState {
        x: 120_000,
        y: -40_000,
        size: Some(RenderSize { w: 100, h: 200 }),
        gate: ScoreGate { x: 120_000, passed: false },
    });
    assert_eq!(w.handle_player_obstacle_collision(), Ok(true));

    w.obstacles[0].x += 1_000_000;
    assert_eq!(w.handle_player_obstacle_collision(), Ok(false));
}

/// Touching intervals (shared boundary) still count as overlap on that axis.
#[test]
fn collision_at_exact_touch() {
    let mut w = World::new();
    w.spawn_player();
    // Obstacle box x in [50, 210]: touches the player's x max exactly.
    w.obstacles.push(ObstacleState {
        x: 130_000,
        y: -40_000,
        size: Some(RenderSize { w: 100, h: 200 }),
        gate: ScoreGate { x: 130_000, passed: false },
    });
    assert_eq!(w.handle_player_obstacle_collision(), Ok(true));
    w.obstacles[0].x += 1;
    assert_eq!(w.handle_player_obstacle_collision(), Ok(false));
}

/// Overlap on one axis alone is no collision.
#[test]
fn no_collision_on_single_axis_overlap() {
    let mut w = World::new();
    w.spawn_player();
    // Same x band as the player, but far below on y.
    w.obstacles.push(ObstacleState {
        x: 0,
        y: -500_000,
        size: Some(RenderSize { w: 100, h: 200 }),
        gate: ScoreGate { x: 0, passed: false },
    });
    assert_eq!(w.handle_player_obstacle_collision(), Ok(false));
}

/// An obstacle without a render size is malformed.
#[test]
fn collision_missing_render_size() {
    let mut w = World::new();
    w.spawn_player();
    w.obstacles.push(ObstacleState {
        x: 0,
        y: 0,
        size: None,
        gate: ScoreGate { x: 0, passed: false },
    });
    assert_eq!(w.handle_player_obstacle_collision(), Err(SimError::MissingRenderSize));
}

/// The collision pass needs the single player entity.
#[test]
fn collision_without_player_reports_missing() {
    let w = World::new();
    assert_eq!(w.handle_player_obstacle_collision(), Err(SimError::MissingPlayer));
}

/// The collision pass rejects several player entities.
#[test]
fn collision_with_two_players_reports_ambiguous() {
    let mut w = World::new();
    w.spawn_player();
    w.spawn_player();
    assert_eq!(w.handle_player_obstacle_collision(), Err(SimError::AmbiguousPlayer));
}

/// A whole tick reports the collision signal to the host.
#[test]
fn tick_reports_collision_signal() {
    let mut w = World::new();
    w.spawn_player();
    // After 0.1 s of scrolling (20 units left), this obstacle sits where the
    // ten-unit-overlap case put it.
    w.obstacles.push(ObstacleState {
        x: 140_000,
        y: -40_000,
        size: Some(RenderSize { w: 100, h: 200 }),
        gate: ScoreGate { x: 140_000, passed: false },
    });
    let r = w.tick(100, false);
    assert_eq!(r, Ok(true));
}
