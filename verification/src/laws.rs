//! Laws of the simulation that relate several passes, proved once for every
//! reachable state.

use vstd::prelude::*;

use crate::obstacle::{gate_newly_passed, gate_step};
use crate::player::clamp_gravity;
use crate::world::{
    gravity_sys, jump_sys, lemma_newly_count_bounds, lemma_newly_count_zero, move_sys,
    pre_score_world, score_sys, spawn_sys, tick_result, WorldModel,
};

verus! {

/// Law: on the tick where the jump input goes from not pressed to pressed,
/// the player's vertical velocity ends up exactly at its jump impulse; if
/// the input stays held through the next tick, that tick integrates gravity
/// as usual and does not reapply the impulse.
pub proof fn lemma_jump_edge_applies_once(
    w: WorldModel,
    dt1: int,
    dt2: int,
    draw1: int,
    draw2: int,
)
    requires
        w.players.len() == 1,
        !w.jump_held,
        w.players[0].vy == 0,
    ensures
        ({
            let w1 = tick_result(w, dt1, true, draw1).0;
            let w2 = tick_result(w1, dt2, true, draw2).0;
            &&& w1.players[0].vy == w.players[0].jump_impulse
            &&& w1.jump_held
            &&& w2.players[0].vy == w1.players[0].vy + clamp_gravity(w1.players[0].gravity)
        }),
{
    let w1 = tick_result(w, dt1, true, draw1).0;
    let m1 = pre_score_world(w, dt1, true, draw1);
    assert(w1.players == m1.players);
    assert(w1.jump_held == m1.jump_held);
    assert(m1.players[0] == jump_sys(gravity_sys(w, dt1), true).players[0]);
    let w2 = tick_result(w1, dt2, true, draw2).0;
    let m2 = pre_score_world(w1, dt2, true, draw2);
    assert(w2.players == m2.players);
    assert(m2.players[0] == jump_sys(gravity_sys(w1, dt2), true).players[0]);
}

/// Law: score gates are one-shot. After a score pass, no gate is newly
/// passed any more, so running the score pass again in the same state
/// changes nothing — in particular it adds no further point for a gate that
/// already scored.
pub proof fn lemma_score_pass_idempotent(w: WorldModel)
    requires
        w.players.len() == 1,
    ensures
        score_sys(score_sys(w)) == score_sys(w),
{
    let w1 = score_sys(w);
    let px = w.players[0].x;
    assert(w1.players[0] == w.players[0]);
    assert forall|i: int| 0 <= i < w1.obstacles.len() implies !gate_newly_passed(
        (#[trigger] w1.obstacles[i]).gate,
        px,
    ) by {
        assert(w1.obstacles[i].gate == gate_step(w.obstacles[i].gate, px));
    }
    lemma_newly_count_zero(w1.obstacles, px);
    assert(score_sys(w1).obstacles =~= w1.obstacles);
    assert(score_sys(w1) =~= w1);
}

/// Law: the score is a monotonically non-decreasing counter — no tick ever
/// lowers it, whatever the tick's input, elapsed time and spawn draw are.
pub proof fn lemma_score_never_decreases(w: WorldModel, dt: int, pressed: bool, draw: int)
    ensures
        tick_result(w, dt, pressed, draw).0.score >= w.score,
{
    let m = pre_score_world(w, dt, pressed, draw);
    assert(m.score == w.score);
    if m.players.len() == 1 {
        lemma_newly_count_bounds(m.obstacles, m.players[0].x);
    }
}

/// Law: once a gate is passed it stays passed across a whole tick, whatever
/// the tick's input, elapsed time and spawn draw are.
pub proof fn lemma_passed_gate_stays_passed(
    w: WorldModel,
    dt: int,
    pressed: bool,
    draw: int,
    i: int,
)
    requires
        0 <= i < w.obstacles.len(),
        w.obstacles[i].gate.passed,
    ensures
        tick_result(w, dt, pressed, draw).0.obstacles[i].gate.passed,
{
    let a = jump_sys(gravity_sys(w, dt), pressed);
    assert(a.obstacles == w.obstacles);
    let b = spawn_sys(a, dt, draw);
    assert(b.obstacles[i] == w.obstacles[i]);
    let m = move_sys(b, dt);
    assert(m.obstacles[i].gate.passed);
    if m.players.len() == 1 {
        assert(score_sys(m).obstacles[i].gate.passed);
    }
}

} // verus!
