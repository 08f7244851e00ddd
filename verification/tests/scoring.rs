//! Obstacle scrolling and one-shot scoring.

use swimming_rustacean::obstacle::{ObstacleState, RenderSize, ScoreGate};
use swimming_rustacean::world::World;
use swimming_rustacean::SimError;

fn obstacle_at(x: i64, gate_x: i64) -> ObstacleState {
    ObstacleState {
        x,
        y: -200_000,
        size: Some(RenderSize { w: 100, h: 200 }),
        gate: ScoreGate { x: gate_x, passed: false },
    }
}

/// At 200 units/s, a 0.1 s tick moves an obstacle exactly 20 units
/// (20_000 milliunits) to the left, and its gate in lockstep.
#[test]
fn scroll_moves_twenty_units_in_a_tenth_second() {
    let mut w = World::new();
    w.obstacles.push(obstacle_at(100_000, 100_000));
    w.move_obstacles(100);
    assert_eq!(w.obstacles[0].x, 80_000);
    assert_eq!(w.obstacles[0].gate.x, 80_000);
    assert_eq!(w.obstacles[0].y, -200_000);
}

/// Every obstacle scrolls, not just the first.
#[test]
fn scroll_moves_all_obstacles() {
    let mut w = World::new();
    w.obstacles.push(obstacle_at(100_000, 100_000));
    w.obstacles.push(obstacle_at(500_000, 500_000));
    w.move_obstacles(1000);
    assert_eq!(w.obstacles[0].x, -100_000);
    assert_eq!(w.obstacles[1].x, 300_000);
}

/// A gate the player has reached scores exactly one point and is marked
/// passed; running the pass again never scores it again.
#[test]
fn score_gate_scores_exactly_once() {
    let mut w = World::new();
    w.spawn_player();
    w.obstacles.push(obstacle_at(0, -10_000));
    let r = w.update_player_score();
    assert_eq!(r, Ok(1));
    assert!(w.obstacles[0].gate.passed);
    let r = w.update_player_score();
    assert_eq!(r, Ok(1));
    assert_eq!(w.score(), 1);
}

/// Further whole ticks never score a passed gate again.
#[test]
fn score_gate_stays_scored_across_ticks() {
    let mut w = World::new();
    w.spawn_player();
    w.obstacles.push(obstacle_at(0, -10_000));
    w.update_player_score().unwrap();
    assert_eq!(w.score(), 1);
    for _ in 0..10 {
        w.tick(100, false).unwrap();
    }
    assert_eq!(w.score(), 1);
    assert!(w.obstacles[0].gate.passed);
}

/// A gate still ahead of the player does not score.
#[test]
fn score_gate_not_reached() {
    let mut w = World::new();
    w.spawn_player();
    w.obstacles.push(obstacle_at(200_000, 10_000));
    let r = w.update_player_score();
    assert_eq!(r, Ok(0));
    assert!(!w.obstacles[0].gate.passed);
}

/// Reaching the threshold exactly counts as passing it.
#[test]
fn score_gate_at_exact_threshold() {
    let mut w = World::new();
    w.spawn_player();
    w.obstacles.push(obstacle_at(0, 0));
    let r = w.update_player_score();
    assert_eq!(r, Ok(1));
}

/// Several newly reached gates each score one point in the same pass.
#[test]
fn score_two_gates_in_one_pass() {
    let mut w = World::new();
    w.spawn_player();
    w.obstacles.push(obstacle_at(0, -10_000));
    w.obstacles.push(obstacle_at(0, -20_000));
    let r = w.update_player_score();
    assert_eq!(r, Ok(2));
}

/// The score pass needs the single player entity.
#[test]
fn score_without_player_reports_missing() {
    let mut w = World::new();
    w.obstacles.push(obstacle_at(0, 0));
    assert_eq!(w.update_player_score(), Err(SimError::MissingPlayer));
    assert_eq!(w.score(), 0);
}

/// The score pass rejects several player entities.
#[test]
fn score_with_two_players_reports_ambiguous() {
    let mut w = World::new();
    w.spawn_player();
    w.spawn_player();
    assert_eq!(w.update_player_score(), Err(SimError::AmbiguousPlayer));
}

/// A gate scrolls with its obstacle, so the point arrives when the
/// player's position catches up with the scrolled threshold.
#[test]
fn gate_scores_after_scrolling_past_player() {
    let mut w = World::new();
    w.spawn_player();
    // Gate 20 units ahead of the player; 0.1 s of scrolling brings it level.
    w.obstacles.push(obstacle_at(220_000, 20_000));
    let r = w.tick(100, false);
    assert_eq!(r, Ok(false));
    assert_eq!(w.score(), 1);
    assert!(w.obstacles[0].gate.passed);
}
