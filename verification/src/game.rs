use vstd::prelude::*;

use crate::collision::{
    check_ball_bounce_collisions, event_happens, generate_ball_collide_events, resolve_all,
    CollisionEvent,
};
use crate::constants::{
    AI_PADDLE_X, DT_LIMIT_MS, DEBOUNCE_WINDOW_MS, PADDLE_BOTTOM_BOUND, PADDLE_TOP_BOUND,
    PLAYER_PADDLE_X, POS_LIMIT, STEP_LIMIT,
};
use crate::entities::{spawn_ball, spec_spawn_ball, Ball, Owner, Paddle, WallSide};
use crate::kinematics::{apply_velocity, step_disp};
use crate::paddles::{enemy_paddle_ai, move_player_paddle, spec_ai_move, spec_player_move};
use crate::scoring::{
    count_goals, handle_round_over, has_goal_event, lemma_count_goals_le_one_if_nodup,
    tally_score, Scoreboard,
};
use crate::sound::{any_event_qualifies, play_collision_sound, CollisionSound, SoundPolicy};

verus! {

/// Ball positions a tick accepts: one step away from the coordinate
/// bound, so the advanced position still satisfies every collider bound.
pub const TICK_POS_LIMIT: i64 = POS_LIMIT - STEP_LIMIT;

/// The whole simulation state: the two paddles, the ball, the
/// scoreboard and the sound state. One tick runs the component pipeline
/// over it in a fixed order.
#[derive(Clone, Copy, Debug, PartialEq, Eq, Structural)]
pub struct GameState {
    pub player: Paddle,
    pub enemy: Paddle,
    pub ball: Ball,
    pub scores: Scoreboard,
    pub sound: CollisionSound,
}

impl GameState {
    /// Each paddle sits in its owner's fixed column within the paddle
    /// bound range, the ball's velocity and the sound state are well
    /// formed.
    pub open spec fn wf(self) -> bool {
        &&& self.player.owner == Owner::Human
        &&& self.enemy.owner == Owner::AI
        &&& self.player.x == PLAYER_PADDLE_X
        &&& self.enemy.x == AI_PADDLE_X
        &&& PADDLE_BOTTOM_BOUND <= self.player.y <= PADDLE_TOP_BOUND
        &&& PADDLE_BOTTOM_BOUND <= self.enemy.y <= PADDLE_TOP_BOUND
        &&& self.ball.wf()
        &&& self.sound.wf()
    }

    /// The fixed starting state: paddles centered in their columns, the
    /// ball served from the starting position, both tallies at zero, and
    /// a fresh sound cycle over `num_cues` cues under `policy`.
    pub fn new(num_cues: usize, policy: SoundPolicy) -> (r: GameState)
        requires
            num_cues >= 1,
        ensures
            r.player.owner == Owner::Human,
            r.player.x == PLAYER_PADDLE_X,
            r.player.y == 0,
            r.enemy.owner == Owner::AI,
            r.enemy.x == AI_PADDLE_X,
            r.enemy.y == 0,
            r.ball == spec_spawn_ball(),
            r.scores.player == 0,
            r.scores.ai == 0,
            r.sound == (CollisionSound { num_cues, next_cue: 0, last_ms: 0, policy }),
            r.wf(),
            r.ball.pos_ok(),
    {
        GameState {
            player: Paddle::new(Owner::Human),
            enemy: Paddle::new(Owner::AI),
            ball: spawn_ball(),
            scores: Scoreboard { ai: 0, player: 0 },
            sound: CollisionSound::new(num_cues, policy),
        }
    }

    /// Where the ball's x lands this tick before any bounce or reset.
    pub open spec fn spec_moved_ball_x(self, dt_ms: int) -> int {
        self.ball.x + step_disp(self.ball.velocity.x as int, dt_ms)
    }

    /// Where the ball's y lands this tick before any bounce or reset.
    pub open spec fn spec_moved_ball_y(self, dt_ms: int) -> int {
        self.ball.y + step_disp(self.ball.velocity.y as int, dt_ms)
    }

    /// One fixed-timestep simulation tick, in the fixed pipeline order:
    /// advance the player paddle by the held keys, advance the AI paddle
    /// toward the ball, advance the ball, detect collisions, resolve
    /// bounces, tally goals, reset the round on a goal, and ask for a
    /// debounced sound cue. Returns this tick's deduplicated collision
    /// events and the cue to play, if any.
    pub fn tick(&mut self, up: bool, down: bool, dt_ms: i64, now_ms: i64) -> (r: (
        Vec<CollisionEvent>,
        Option<usize>,
    ))
        requires
            old(self).wf(),
            -TICK_POS_LIMIT <= old(self).ball.x <= TICK_POS_LIMIT,
            -TICK_POS_LIMIT <= old(self).ball.y <= TICK_POS_LIMIT,
            dt_ms <= DT_LIMIT_MS,
            now_ms >= 0,
            old(self).scores.player < usize::MAX,
            old(self).scores.ai < usize::MAX,
        ensures
            final(self).wf(),
            // Paddle controllers.
            final(self).player.y as int == spec_player_move(
                old(self).player.y as int,
                up,
                down,
                dt_ms as int,
            ),
            final(self).enemy.y as int == spec_ai_move(
                old(self).enemy.y as int,
                old(self).ball.y as int,
                dt_ms as int,
            ),
            final(self).player.x == old(self).player.x,
            final(self).enemy.x == old(self).enemy.x,
            final(self).player.owner == old(self).player.owner,
            final(self).enemy.owner == old(self).enemy.owner,
            // Collision detection, against the advanced ball and the
            // advanced paddles.
            forall|ev: CollisionEvent| r.0@.contains(ev) <==> event_happens(
                (Ball {
                    x: (old(self).spec_moved_ball_x(dt_ms as int)) as i64,
                    y: (old(self).spec_moved_ball_y(dt_ms as int)) as i64,
                    velocity: old(self).ball.velocity,
                }),
                final(self).player,
                final(self).enemy,
                ev,
            ),
            r.0@.no_duplicates(),
            // Scoring.
            final(self).scores.player == old(self).scores.player + count_goals(
                r.0@,
                WallSide::PlayerGoal,
            ),
            final(self).scores.ai == old(self).scores.ai + count_goals(r.0@, WallSide::EnemyGoal),
            // Tallies never shrink.
            final(self).scores.player >= old(self).scores.player,
            final(self).scores.ai >= old(self).scores.ai,
            // Round reset and bounce resolution.
            has_goal_event(r.0@) ==> final(self).ball == spec_spawn_ball(),
            !has_goal_event(r.0@) ==> {
                &&& final(self).ball.x as int == old(self).spec_moved_ball_x(dt_ms as int)
                &&& final(self).ball.y as int == old(self).spec_moved_ball_y(dt_ms as int)
                &&& (final(self).ball.velocity.x as int, final(self).ball.velocity.y as int)
                    == resolve_all(
                    (old(self).ball.velocity.x as int, old(self).ball.velocity.y as int),
                    old(self).spec_moved_ball_x(dt_ms as int),
                    old(self).spec_moved_ball_y(dt_ms as int),
                    final(self).player,
                    final(self).enemy,
                )
            },
            final(self).ball.pos_ok(),
            // Sound debouncing.
            !any_event_qualifies(r.0@, old(self).sound.policy) ==> {
                &&& r.1 is None
                &&& final(self).sound == old(self).sound
            },
            any_event_qualifies(r.0@, old(self).sound.policy) && now_ms - old(self).sound.last_ms
                < DEBOUNCE_WINDOW_MS ==> {
                &&& r.1 is None
                &&& final(self).sound == old(self).sound
            },
            any_event_qualifies(r.0@, old(self).sound.policy) && now_ms - old(self).sound.last_ms
                >= DEBOUNCE_WINDOW_MS ==> {
                &&& r.1 == Some(old(self).sound.next_cue)
                &&& final(self).sound.last_ms == now_ms
                &&& final(self).sound.next_cue as int == (old(self).sound.next_cue + 1) % (
                old(self).sound.num_cues as int)
                &&& final(self).sound.num_cues == old(self).sound.num_cues
                &&& final(self).sound.policy == old(self).sound.policy
            },
    {
        // Paddle controllers: the AI tracks the ball's position as it
        // stands at the start of the tick.
        let mut player: Paddle = self.player;
        move_player_paddle(&mut player, up, down, dt_ms);
        self.player = player;

        let mut enemy: Paddle = self.enemy;
        enemy_paddle_ai(&mut enemy, &self.ball, dt_ms);
        self.enemy = enemy;

        // Ball kinematics.
        let mut ball: Ball = self.ball;
        apply_velocity(&mut ball, dt_ms);

        // Collision detection at the advanced positions.
        let events: Vec<CollisionEvent> = generate_ball_collide_events(
            &ball,
            &self.player,
            &self.enemy,
        );

        // Bounce resolution re-evaluates the same overlap tests.
        check_ball_bounce_collisions(&mut ball, &self.player, &self.enemy);

        // Scoring, then round reset on any goal event.
        proof {
            lemma_count_goals_le_one_if_nodup(events@, WallSide::PlayerGoal);
            lemma_count_goals_le_one_if_nodup(events@, WallSide::EnemyGoal);
        }
        let mut scores: Scoreboard = self.scores;
        tally_score(&mut scores, &events);
        self.scores = scores;

        handle_round_over(&mut ball, &events);
        self.ball = ball;

        // The debounced sound cue.
        let mut sound: CollisionSound = self.sound;
        let cue: Option<usize> = play_collision_sound(&mut sound, &events, now_ms);
        self.sound = sound;

        (events, cue)
    }
}

} // verus!
