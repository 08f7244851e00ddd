//! The shared entity pool and the per-tick passes that run over it, in the
//! fixed order: gravity integration, jump input, obstacle spawn, obstacle
//! scroll, collision detection, scoring.

use vstd::prelude::*;

use rand::Rng;

use crate::collision::{check_player_obstacle_overlap, player_hits_obstacle};
use crate::obstacle::{
    gate_newly_passed, gate_step, move_fits, move_obstacle, move_obstacle_by, obstacle_from_draw,
    spawn_obstacle_from_draw, ObstacleModel, ObstacleState,
};
use crate::player::{
    apply_gravity_to, apply_jump_to, default_player, gravity_step, gravity_step_fits, jump_step,
    PlayerModel, PlayerState,
};
use crate::timer::{timer_fires, timer_step, timer_wf, SpawnTimer, TimerModel};
use crate::{
    SimError, DT_LIMIT_MS, FLOOR_TILE_COUNT, GRAVITY_MAX, MILLI, SAND_BOT_OF_FLOOR_Y,
    SAND_TOP_OF_FLOOR_Y, SPAWN_PERIOD_MS, SPRITE_SIZE, WINDOW_WIDTH,
};

verus! {

/// Mathematical value of a floor tile's position, milliunits.
pub ghost struct TileModel {
    pub x: int,
    pub y: int,
}

/// A static floor tile: decoration with a transform and no physics,
/// positions in milliunits.
#[derive(Clone, Copy, Debug)]
pub struct FloorTile {
    pub x: i64,
    pub y: i64,
}

impl View for FloorTile {
    type V = TileModel;

    open spec fn view(&self) -> TileModel {
        TileModel { x: self.x as int, y: self.y as int }
    }
}

/// Mathematical value of the whole simulation state.
#[verifier::ext_equal]
pub ghost struct WorldModel {
    pub players: Seq<PlayerModel>,
    pub obstacles: Seq<ObstacleModel>,
    pub tiles: Seq<TileModel>,
    pub score: int,
    pub timer: TimerModel,
    pub jump_held: bool,
}

/// The simulation state: the entity pool (players, obstacles, floor tiles),
/// the score counter, the obstacle spawn timer, and the last tick's jump
/// input (for edge detection).
pub struct World {
    pub players: Vec<PlayerState>,
    pub obstacles: Vec<ObstacleState>,
    pub tiles: Vec<FloorTile>,
    pub score: u64,
    pub spawn_timer: SpawnTimer,
    pub jump_held: bool,
}

impl View for World {
    type V = WorldModel;

    open spec fn view(&self) -> WorldModel {
        WorldModel {
            players: Seq::new(self.players@.len(), |i: int| self.players@[i]@),
            obstacles: Seq::new(self.obstacles@.len(), |i: int| self.obstacles@[i]@),
            tiles: Seq::new(self.tiles@.len(), |i: int| self.tiles@[i]@),
            score: self.score as int,
            timer: self.spawn_timer@,
            jump_held: self.jump_held,
        }
    }
}

/// The state a fresh world starts in: an empty entity pool, score zero, the
/// spawn timer at the start of its period, no jump input seen.
pub open spec fn initial_world() -> WorldModel {
    WorldModel {
        players: Seq::empty(),
        obstacles: Seq::empty(),
        tiles: Seq::empty(),
        score: 0,
        timer: TimerModel { period_ms: SPAWN_PERIOD_MS as int, elapsed_ms: 0 },
        jump_held: false,
    }
}

/// The gravity pass over the whole pool: every player is integrated; nothing
/// else changes.
pub open spec fn gravity_sys(w: WorldModel, dt_ms: int) -> WorldModel {
    WorldModel {
        players: Seq::new(w.players.len(), |i: int| gravity_step(w.players[i], dt_ms)),
        ..w
    }
}

/// The jump pass over the whole pool: a just-pressed edge (pressed now, not
/// pressed on the last tick) overwrites every player's vertical velocity
/// with its jump impulse; the input is remembered for the next edge.
pub open spec fn jump_sys(w: WorldModel, pressed: bool) -> WorldModel {
    let just = pressed && !w.jump_held;
    WorldModel {
        players: Seq::new(w.players.len(), |i: int| jump_step(w.players[i], just)),
        jump_held: pressed,
        ..w
    }
}

/// The spawn pass: the timer advances, and if it fires, exactly one obstacle
/// of the drawn kind is appended to the pool.
pub open spec fn spawn_sys(w: WorldModel, dt_ms: int, draw: int) -> WorldModel {
    WorldModel {
        timer: timer_step(w.timer, dt_ms),
        obstacles: if timer_fires(w.timer, dt_ms) {
            w.obstacles.push(obstacle_from_draw(draw))
        } else {
            w.obstacles
        },
        ..w
    }
}

/// The scroll pass: every obstacle moves leftward; nothing else changes.
pub open spec fn move_sys(w: WorldModel, dt_ms: int) -> WorldModel {
    WorldModel {
        obstacles: Seq::new(w.obstacles.len(), |i: int| move_obstacle(w.obstacles[i], dt_ms)),
        ..w
    }
}

/// Whether every obstacle carries a render size.
pub open spec fn all_obstacles_sized(w: WorldModel) -> bool {
    forall|i: int| 0 <= i < w.obstacles.len() ==> (#[trigger] w.obstacles[i]).size is Some
}

/// Whether the (single) player overlaps some obstacle.
pub open spec fn any_collision(w: WorldModel) -> bool {
    exists|i: int|
        0 <= i < w.obstacles.len() && player_hits_obstacle(w.players[0], #[trigger] w.obstacles[i])
}

/// How many score gates the (single) player newly passes this tick.
pub open spec fn newly_passed_count(obs: Seq<ObstacleModel>, px: int) -> int
    decreases obs.len(),
{
    if obs.len() == 0 {
        0
    } else {
        newly_passed_count(obs.drop_last(), px) + if gate_newly_passed(obs.last().gate, px) {
            1int
        } else {
            0int
        }
    }
}

/// The newly-passed count lies between zero and the number of gates.
pub proof fn lemma_newly_count_bounds(obs: Seq<ObstacleModel>, px: int)
    ensures
        0 <= newly_passed_count(obs, px) <= obs.len(),
    decreases obs.len(),
{
    if obs.len() > 0 {
        lemma_newly_count_bounds(obs.drop_last(), px);
    }
}

/// Extending a prefix by one gate grows the newly-passed count by that
/// gate's contribution.
pub proof fn lemma_newly_count_step(obs: Seq<ObstacleModel>, px: int, i: int)
    requires
        0 <= i < obs.len(),
    ensures
        newly_passed_count(obs.take(i + 1), px) == newly_passed_count(obs.take(i), px)
            + if gate_newly_passed(obs[i].gate, px) {
            1int
        } else {
            0int
        },
{
    assert(obs.take(i + 1).drop_last() =~= obs.take(i));
    assert(obs.take(i + 1).last() == obs[i]);
}

/// A pool of gates none of which is newly passed contributes nothing.
pub proof fn lemma_newly_count_zero(obs: Seq<ObstacleModel>, px: int)
    requires
        forall|i: int| 0 <= i < obs.len() ==> !gate_newly_passed((#[trigger] obs[i]).gate, px),
    ensures
        newly_passed_count(obs, px) == 0,
    decreases obs.len(),
{
    if obs.len() > 0 {
        assert(obs.drop_last() =~= obs.subrange(0, obs.len() - 1));
        assert forall|i: int| 0 <= i < obs.drop_last().len() implies !gate_newly_passed(
            (#[trigger] obs.drop_last()[i]).gate,
            px,
        ) by {
            assert(obs.drop_last()[i] == obs[i]);
        }
        lemma_newly_count_zero(obs.drop_last(), px);
    }
}

/// The score pass: every gate the player's horizontal position has reached
/// becomes passed, and the score grows by one for each gate that was not
/// passed before — so each gate contributes at most one point, ever.
pub open spec fn score_sys(w: WorldModel) -> WorldModel {
    let px = w.players[0].x;
    WorldModel {
        obstacles: Seq::new(
            w.obstacles.len(),
            |i: int| ObstacleModel { gate: gate_step(w.obstacles[i].gate, px), ..w.obstacles[i] },
        ),
        score: w.score + newly_passed_count(w.obstacles, px),
        ..w
    }
}

/// The world after the four unconditional passes of a tick, in order:
/// gravity, jump input, spawn, scroll.
pub open spec fn pre_score_world(w: WorldModel, dt_ms: int, pressed: bool, draw: int) -> WorldModel {
    move_sys(spawn_sys(jump_sys(gravity_sys(w, dt_ms), pressed), dt_ms, draw), dt_ms)
}

/// A whole tick: the four unconditional passes, then collision detection
/// and scoring, which need the single player (and, for collisions, sized
/// obstacles) and otherwise report the precondition violation, leaving the
/// world as the unconditional passes made it.
pub open spec fn tick_result(w: WorldModel, dt_ms: int, pressed: bool, draw: int) -> (
    WorldModel,
    Result<bool, SimError>,
) {
    let m = pre_score_world(w, dt_ms, pressed, draw);
    if m.players.len() == 0 {
        (m, Result::Err(SimError::MissingPlayer))
    } else if m.players.len() > 1 {
        (m, Result::Err(SimError::AmbiguousPlayer))
    } else if !all_obstacles_sized(m) {
        (m, Result::Err(SimError::MissingRenderSize))
    } else {
        (score_sys(m), Result::Ok(any_collision(m)))
    }
}

/// The machine limits one tick needs: a bounded tick length, a well-formed
/// timer, integration and scroll results that fit in `i64`, and headroom on
/// the score counter.
pub open spec fn tick_fits(w: WorldModel, dt_ms: int) -> bool {
    &&& 0 <= dt_ms <= DT_LIMIT_MS
    &&& timer_wf(w.timer)
    &&& forall|i: int|
        0 <= i < w.players.len() ==> gravity_step_fits(#[trigger] w.players[i], dt_ms)
    &&& forall|i: int| 0 <= i < w.obstacles.len() ==> move_fits(#[trigger] w.obstacles[i], dt_ms)
    &&& w.score + w.obstacles.len() + 1 <= u64::MAX
}

/// The position of the `i`-th floor tile: tiles are laid edge to edge from
/// the left window border, centered vertically inside the floor band.
pub open spec fn floor_tile_at(i: int) -> TileModel {
    TileModel {
        x: ((-WINDOW_WIDTH / 2) + i * SPRITE_SIZE + SPRITE_SIZE / 2) * MILLI,
        y: (SAND_TOP_OF_FLOOR_Y + SAND_BOT_OF_FLOOR_Y) / 2 * MILLI,
    }
}

impl World {
    /// A fresh, empty world.
    pub fn new() -> (w: World)
        ensures
            w@ == initial_world(),
            timer_wf(w@.timer),
    {
        World {
            players: Vec::new(),
            obstacles: Vec::new(),
            tiles: Vec::new(),
            score: 0,
            spawn_timer: SpawnTimer::new(SPAWN_PERIOD_MS),
            jump_held: false,
        }
    }

    /// The current score, for display.
    pub fn score(&self) -> (s: u64)
        ensures
            s == self@.score,
    {
        self.score
    }

    /// Spawns the player entity at the origin with the default physics
    /// state. Everything else is untouched.
    pub fn spawn_player(&mut self)
        ensures
            final(self)@ == (WorldModel {
                players: old(self)@.players.push(default_player()),
                ..old(self)@
            }),
    {
        self.players.push(PlayerState::default());
        proof {
            assert(self@.players =~= old(self)@.players.push(default_player()));
            assert(self@ =~= (WorldModel {
                players: old(self)@.players.push(default_player()),
                ..old(self)@
            }));
        }
    }

    /// Lays the row of floor tiles across the playfield. Everything else is
    /// untouched.
    pub fn set_environment(&mut self)
        ensures
            final(self)@ == (WorldModel {
                tiles: old(self)@.tiles + Seq::new(FLOOR_TILE_COUNT as nat, |i: int| floor_tile_at(i)),
                ..old(self)@
            }),
    {
        let num_tiles = WINDOW_WIDTH / SPRITE_SIZE;
        let mut i: i64 = 0;
        while i < num_tiles
            invariant
                0 <= i <= num_tiles,
                num_tiles == FLOOR_TILE_COUNT,
                self.players == old(self).players,
                self.obstacles == old(self).obstacles,
                self.score == old(self).score,
                self.spawn_timer == old(self).spawn_timer,
                self.jump_held == old(self).jump_held,
                self.tiles@.len() == old(self).tiles@.len() + i,
                forall|j: int| 0 <= j < old(self).tiles@.len() ==> self.tiles@[j] == old(self).tiles@[j],
                forall|j: int|
                    old(self).tiles@.len() <= j < self.tiles@.len() ==> (#[trigger] self.tiles@[j])@
                        == floor_tile_at(j - old(self).tiles@.len()),
            decreases num_tiles - i,
        {
            self.tiles.push(FloorTile {
                x: ((-WINDOW_WIDTH / 2) + i * SPRITE_SIZE + SPRITE_SIZE / 2) * MILLI,
                y: (SAND_TOP_OF_FLOOR_Y + SAND_BOT_OF_FLOOR_Y) / 2 * MILLI,
            });
            i = i + 1;
        }
        proof {
            assert(self@.tiles =~= old(self)@.tiles + Seq::new(
                FLOOR_TILE_COUNT as nat,
                |i: int| floor_tile_at(i),
            ));
            assert(self@ =~= (WorldModel {
                tiles: old(self)@.tiles + Seq::new(FLOOR_TILE_COUNT as nat, |i: int| floor_tile_at(i)),
                ..old(self)@
            }));
        }
    }

    /// Runs the gravity pass: integrates every player. After it, every
    /// player's gravity factor is at most `GRAVITY_MAX`.
    pub fn apply_gravity(&mut self, dt_ms: u64)
        requires
            dt_ms <= DT_LIMIT_MS,
            forall|i: int|
                0 <= i < old(self)@.players.len() ==> gravity_step_fits(
                    #[trigger] old(self)@.players[i],
                    dt_ms as int,
                ),
        ensures
            final(self)@ == gravity_sys(old(self)@, dt_ms as int),
            forall|i: int|
                0 <= i < final(self)@.players.len() ==> (#[trigger] final(self)@.players[i]).gravity
                    <= GRAVITY_MAX,
    {
        let n = self.players.len();
        let mut i: usize = 0;
        while i < n
            invariant
                0 <= i <= n,
                n == self.players.len(),
                self.players.len() == old(self).players.len(),
                dt_ms <= DT_LIMIT_MS,
                forall|j: int|
                    0 <= j < n ==> gravity_step_fits(#[trigger] old(self)@.players[j], dt_ms as int),
                forall|j: int| i <= j < n ==> self.players@[j] == old(self).players@[j],
                forall|j: int|
                    0 <= j < i ==> (#[trigger] self.players@[j])@ == gravity_step(
                        old(self)@.players[j],
                        dt_ms as int,
                    ),
                self.obstacles == old(self).obstacles,
                self.tiles == old(self).tiles,
                self.score == old(self).score,
                self.spawn_timer == old(self).spawn_timer,
                self.jump_held == old(self).jump_held,
            decreases n - i,
        {
            let mut p = self.players[i];
            proof {
                assert(p@ == old(self)@.players[i as int]);
            }
            apply_gravity_to(&mut p, dt_ms);
            self.players[i] = p;
            i = i + 1;
        }
        proof {
            assert(self@.players =~= gravity_sys(old(self)@, dt_ms as int).players);
            assert(self@ =~= gravity_sys(old(self)@, dt_ms as int));
        }
    }

    /// Runs the jump pass: on the tick where the jump input goes from not
    /// pressed to pressed, every player's vertical velocity is overwritten
    /// with its jump impulse; a held input has no further effect until the
    /// next edge.
    pub fn handle_player_jump(&mut self, pressed: bool)
        ensures
            final(self)@ == jump_sys(old(self)@, pressed),
    {
        let just = pressed && !self.jump_held;
        let n = self.players.len();
        let mut i: usize = 0;
        while i < n
            invariant
                0 <= i <= n,
                n == self.players.len(),
                self.players.len() == old(self).players.len(),
                forall|j: int| i <= j < n ==> self.players@[j] == old(self).players@[j],
                forall|j: int|
                    0 <= j < i ==> (#[trigger] self.players@[j])@ == jump_step(
                        old(self)@.players[j],
                        just,
                    ),
                self.obstacles == old(self).obstacles,
                self.tiles == old(self).tiles,
                self.score == old(self).score,
                self.spawn_timer == old(self).spawn_timer,
                self.jump_held == old(self).jump_held,
            decreases n - i,
        {
            let mut p = self.players[i];
            apply_jump_to(&mut p, just);
            self.players[i] = p;
            i = i + 1;
        }
        self.jump_held = pressed;
        proof {
            assert(self@.players =~= jump_sys(old(self)@, pressed).players);
            assert(self@ =~= jump_sys(old(self)@, pressed));
        }
    }

    /// Runs the spawn pass: advances the spawn timer, and when it fires,
    /// spawns exactly one obstacle of a randomly drawn kind — never more
    /// than one per tick, however large the elapsed time.
    pub fn spawn_obstacles(&mut self, dt_ms: u64)
        requires
            dt_ms <= DT_LIMIT_MS,
            timer_wf(old(self)@.timer),
        ensures
            exists|draw: int|
                1 <= draw < 3 && final(self)@ == spawn_sys(old(self)@, dt_ms as int, draw),
            final(self)@.obstacles.len() == old(self)@.obstacles.len() + (if timer_fires(
                old(self)@.timer,
                dt_ms as int,
            ) {
                1int
            } else {
                0int
            }),
            timer_wf(final(self)@.timer),
    {
        let fired = self.spawn_timer.tick(dt_ms);
        if fired {
            let draw = random_obstacle_draw();
            let ob = spawn_obstacle_from_draw(draw);
            self.obstacles.push(ob);
            proof {
                assert(self@.obstacles =~= old(self)@.obstacles.push(
                    obstacle_from_draw(draw as int),
                ));
                assert(self@ =~= spawn_sys(old(self)@, dt_ms as int, draw as int));
            }
        } else {
            proof {
                assert(self@.obstacles =~= old(self)@.obstacles);
                assert(self@ =~= spawn_sys(old(self)@, dt_ms as int, 1));
            }
        }
    }

    /// Runs the scroll pass: moves every obstacle (and its score gate, in
    /// lockstep) leftward by the scroll speed times the elapsed time.
    pub fn move_obstacles(&mut self, dt_ms: u64)
        requires
            dt_ms <= DT_LIMIT_MS,
            forall|i: int|
                0 <= i < old(self)@.obstacles.len() ==> move_fits(
                    #[trigger] old(self)@.obstacles[i],
                    dt_ms as int,
                ),
        ensures
            final(self)@ == move_sys(old(self)@, dt_ms as int),
    {
        let n = self.obstacles.len();
        let mut i: usize = 0;
        while i < n
            invariant
                0 <= i <= n,
                n == self.obstacles.len(),
                self.obstacles.len() == old(self).obstacles.len(),
                dt_ms <= DT_LIMIT_MS,
                forall|j: int|
                    0 <= j < n ==> move_fits(#[trigger] old(self)@.obstacles[j], dt_ms as int),
                forall|j: int| i <= j < n ==> self.obstacles@[j] == old(self).obstacles@[j],
                forall|j: int|
                    0 <= j < i ==> (#[trigger] self.obstacles@[j])@ == move_obstacle(
                        old(self)@.obstacles[j],
                        dt_ms as int,
                    ),
                self.players == old(self).players,
                self.tiles == old(self).tiles,
                self.score == old(self).score,
                self.spawn_timer == old(self).spawn_timer,
                self.jump_held == old(self).jump_held,
            decreases n - i,
        {
            let mut o = self.obstacles[i];
            move_obstacle_by(&mut o, dt_ms);
            self.obstacles[i] = o;
            i = i + 1;
        }
        proof {
            assert(self@.obstacles =~= move_sys(old(self)@, dt_ms as int).obstacles);
            assert(self@ =~= move_sys(old(self)@, dt_ms as int));
        }
    }

    /// Runs collision detection: tests the single player's bounding box
    /// against every obstacle's and reports whether any overlap. Needs
    /// exactly one player and a render size on every obstacle; otherwise it
    /// reports the precondition violation.
    pub fn handle_player_obstacle_collision(&self) -> (r: Result<bool, SimError>)
        ensures
            self@.players.len() == 0 ==> r == Result::<bool, SimError>::Err(
                SimError::MissingPlayer,
            ),
            self@.players.len() > 1 ==> r == Result::<bool, SimError>::Err(
                SimError::AmbiguousPlayer,
            ),
            self@.players.len() == 1 && !all_obstacles_sized(self@) ==> r == Result::<
                bool,
                SimError,
            >::Err(SimError::MissingRenderSize),
            self@.players.len() == 1 && all_obstacles_sized(self@) ==> r == Result::<
                bool,
                SimError,
            >::Ok(any_collision(self@)),
    {
        if self.players.len() == 0 {
            return Err(SimError::MissingPlayer);
        }
        if self.players.len() > 1 {
            return Err(SimError::AmbiguousPlayer);
        }
        let n = self.obstacles.len();
        let mut i: usize = 0;
        let mut found = false;
        while i < n
            invariant
                0 <= i <= n,
                n == self.obstacles.len(),
                self.players.len() == 1,
                forall|j: int| 0 <= j < i ==> (#[trigger] self@.obstacles[j]).size is Some,
                found == exists|j: int|
                    0 <= j < i && player_hits_obstacle(
                        self@.players[0],
                        #[trigger] self@.obstacles[j],
                    ),
            decreases n - i,
        {
            proof {
                assert(self@.obstacles[i as int] == self.obstacles@[i as int]@);
                assert(self@.players[0] == self.players@[0]@);
            }
            match check_player_obstacle_overlap(&self.players[0], &self.obstacles[i]) {
                Err(e) => {
                    proof {
                        assert(self@.obstacles[i as int].size is None);
                        assert(!all_obstacles_sized(self@));
                    }
                    return Err(e);
                },
                Ok(c) => {
                    proof {
                        if c {
                            assert(player_hits_obstacle(self@.players[0], self@.obstacles[i as int]));
                        }
                    }
                    found = found || c;
                },
            }
            i = i + 1;
        }
        Ok(found)
    }

    /// Runs the score pass: for every gate not yet passed whose threshold
    /// the single player's horizontal position has reached, increments the
    /// score by exactly one and flips that gate's one-shot flag — each gate
    /// contributes at most one point, ever. Returns the updated score for
    /// display. Needs exactly
    /// one player; otherwise it reports the precondition violation and
    /// changes nothing.
    pub fn update_player_score(&mut self) -> (r: Result<u64, SimError>)
        requires
            old(self)@.score + old(self)@.obstacles.len() <= u64::MAX,
        ensures
            old(self)@.players.len() == 0 ==> r == Result::<u64, SimError>::Err(
                SimError::MissingPlayer,
            ) && final(self)@ == old(self)@,
            old(self)@.players.len() > 1 ==> r == Result::<u64, SimError>::Err(
                SimError::AmbiguousPlayer,
            ) && final(self)@ == old(self)@,
            old(self)@.players.len() == 1 ==> final(self)@ == score_sys(old(self)@) && (
            r matches Ok(s) && s == final(self)@.score),
    {
        if self.players.len() == 0 {
            return Err(SimError::MissingPlayer);
        }
        if self.players.len() > 1 {
            return Err(SimError::AmbiguousPlayer);
        }
        let px = self.players[0].x;
        let n = self.obstacles.len();
        let mut i: usize = 0;
        while i < n
            invariant
                0 <= i <= n,
                n == self.obstacles.len(),
                self.obstacles.len() == old(self).obstacles.len(),
                self.players.len() == 1,
                px == old(self)@.players[0].x,
                old(self)@.score + old(self)@.obstacles.len() <= u64::MAX,
                self.score as int == old(self)@.score + newly_passed_count(
                    old(self)@.obstacles.take(i as int),
                    px as int,
                ),
                forall|j: int| i <= j < n ==> self.obstacles@[j] == old(self).obstacles@[j],
                forall|j: int|
                    0 <= j < i ==> (#[trigger] self@.obstacles[j]) == (ObstacleModel {
                        gate: gate_step(old(self)@.obstacles[j].gate, px as int),
                        ..old(self)@.obstacles[j]
                    }),
                self.players == old(self).players,
                self.tiles == old(self).tiles,
                self.spawn_timer == old(self).spawn_timer,
                self.jump_held == old(self).jump_held,
            decreases n - i,
        {
            proof {
                lemma_newly_count_step(old(self)@.obstacles, px as int, i as int);
                lemma_newly_count_bounds(old(self)@.obstacles.take(i as int), px as int);
                assert(old(self)@.obstacles.take(i as int).len() == i);
            }
            let ghost pre = self@;
            let ghost pre_obs = self.obstacles@;
            let mut o = self.obstacles[i];
            proof {
                assert(o@ == old(self)@.obstacles[i as int]);
            }
            if px >= o.gate.x && !o.gate.passed {
                self.score = self.score + 1;
                o.gate.passed = true;
                self.obstacles[i] = o;
            }
            proof {
                assert forall|j: int| 0 <= j < i as int + 1 implies (#[trigger] self@.obstacles[j])
                    == (ObstacleModel {
                    gate: gate_step(old(self)@.obstacles[j].gate, px as int),
                    ..old(self)@.obstacles[j]
                }) by {
                    assert(self@.obstacles[j] == self.obstacles@[j]@);
                    if j < i as int {
                        assert(self.obstacles@[j] == pre_obs[j]);
                        assert(pre.obstacles[j] == pre_obs[j]@);
                    }
                }
            }
            i = i + 1;
        }
        proof {
            assert(old(self)@.obstacles.take(n as int) =~= old(self)@.obstacles);
            assert(self@.obstacles =~= score_sys(old(self)@).obstacles);
            assert(self@ =~= score_sys(old(self)@));
        }
        Ok(self.score)
    }

    /// Runs one whole tick in the fixed pass order: gravity integration,
    /// jump input, obstacle spawn, obstacle scroll, collision detection,
    /// scoring. Returns the collision signal for the host, or the first
    /// precondition violation the tick met; in the latter case the world is
    /// left as the four unconditional passes made it.
    pub fn tick(&mut self, dt_ms: u64, pressed: bool) -> (r: Result<bool, SimError>)
        requires
            tick_fits(old(self)@, dt_ms as int),
        ensures
            exists|draw: int|
                #![trigger tick_result(old(self)@, dt_ms as int, pressed, draw)]
                1 <= draw < 3 && ({
                    let (wm, res) = tick_result(old(self)@, dt_ms as int, pressed, draw);
                    final(self)@ == wm && r == res
                }),
            forall|i: int|
                0 <= i < final(self)@.players.len() ==> (#[trigger] final(self)@.players[i]).gravity
                    <= GRAVITY_MAX,
            timer_wf(final(self)@.timer),
    {
        let ghost w0 = self@;
        self.apply_gravity(dt_ms);
        let ghost w1 = self@;
        self.handle_player_jump(pressed);
        let ghost w2 = self@;
        self.spawn_obstacles(dt_ms);
        let ghost draw = choose|d: int| 1 <= d < 3 && self@ == spawn_sys(w2, dt_ms as int, d);
        let ghost w3 = self@;
        proof {
            assert forall|i: int| 0 <= i < w3.obstacles.len() implies move_fits(
                #[trigger] w3.obstacles[i],
                dt_ms as int,
            ) by {
                if i < w0.obstacles.len() {
                    assert(w3.obstacles[i] == w0.obstacles[i]);
                } else {
                    assert(w3.obstacles[i] == obstacle_from_draw(draw));
                }
            }
        }
        self.move_obstacles(dt_ms);
        let ghost w4 = self@;
        proof {
            assert(w4 == pre_score_world(w0, dt_ms as int, pressed, draw));
            assert(w4.players.len() == w0.players.len());
            assert(w4.score == w0.score);
            assert(w4.obstacles.len() <= w0.obstacles.len() + 1);
            assert(w4.players == w2.players);
            assert forall|i: int| 0 <= i < w4.players.len() implies (
            #[trigger] w4.players[i]).gravity <= GRAVITY_MAX by {
                assert(w2.players[i] == jump_step(w1.players[i], pressed && !w1.jump_held));
                assert(w1.players[i].gravity <= GRAVITY_MAX);
            }
            assert(timer_wf(w4.timer));
        }
        let collided = match self.handle_player_obstacle_collision() {
            Err(e) => {
                proof {
                    if e == SimError::MissingRenderSize {
                        assert(!all_obstacles_sized(w4));
                    }
                    assert(tick_result(w0, dt_ms as int, pressed, draw) == (
                    w4,
                    Result::<bool, SimError>::Err(e),
                    ));
                }
                return Err(e);
            },
            Ok(c) => c,
        };
        proof {
            assert(w4.players.len() == 1 && all_obstacles_sized(w4));
            assert(collided == any_collision(w4));
        }
        let scored = self.update_player_score();
        match scored {
            Err(e) => {
                // Unreachable: the collision pass above already found the
                // single player, and the score pass fails only without one.
                proof {
                    assert(false);
                }
                Err(e)
            },
            Ok(_) => {
                proof {
                    assert(self@ == score_sys(w4));
                    assert(tick_result(w0, dt_ms as int, pressed, draw) == (
                    self@,
                    Result::<bool, SimError>::Ok(collided),
                    ));
                }
                Ok(collided)
            },
        }
    }
}

/// Relies on `rand::thread_rng` and `rand::Rng::gen_range`: returns an
/// integer drawn uniformly from the non-empty half-open range `1..3`.
#[verifier::external_body]
fn random_obstacle_draw() -> (r: i32)
    ensures
        1 <= r < 3,
{
    let mut rng = rand::thread_rng();
    rng.gen_range(1..3)
}

} // verus!
