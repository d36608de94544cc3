use vstd::prelude::*;

use crate::constants::{
    DT_LIMIT_MS, MAX_AI_PADDLE_SPEED, PADDLE_BOTTOM_BOUND, PADDLE_SPEED, PADDLE_TOP_BOUND,
};
use crate::entities::{Ball, Paddle};
use crate::geometry::{clamp, lemma_clamp_idempotent, spec_clamp};
use crate::kinematics::{scaled_velocity, step_disp};

verus! {

/// Direction the held keys ask for: up wins over down, no key means no
/// motion. Vertical axis only.
pub open spec fn spec_player_direction(up: bool, down: bool) -> int {
    if up {
        1
    } else if down {
        -1
    } else {
        0
    }
}

/// One player-controller step: integrate the chosen direction at the
/// fixed paddle speed, then clamp to the paddle bound range.
pub open spec fn spec_player_move(y: int, up: bool, down: bool, dt_ms: int) -> int {
    spec_clamp(
        y + step_disp(spec_player_direction(up, down) * (PADDLE_SPEED as int), dt_ms),
        PADDLE_BOTTOM_BOUND as int,
        PADDLE_TOP_BOUND as int,
    )
}

/// One AI-controller step: pursue the ball's current y, with the raw
/// delta capped by the fixed maximum AI speed, then clamp to the paddle
/// bound range. Pure position tracking, no anticipation.
pub open spec fn spec_ai_move(y: int, ball_y: int, dt_ms: int) -> int {
    let cap = step_disp(MAX_AI_PADDLE_SPEED as int, dt_ms);
    spec_clamp(
        y + spec_clamp(ball_y - y, -cap, cap),
        PADDLE_BOTTOM_BOUND as int,
        PADDLE_TOP_BOUND as int,
    )
}

/// Move the human paddle by the held movement keys for one time step.
pub fn move_player_paddle(paddle: &mut Paddle, up: bool, down: bool, dt_ms: i64)
    requires
        old(paddle).pos_ok(),
        dt_ms <= DT_LIMIT_MS,
    ensures
        final(paddle).y as int == spec_player_move(old(paddle).y as int, up, down, dt_ms as int),
        PADDLE_BOTTOM_BOUND <= final(paddle).y <= PADDLE_TOP_BOUND,
        final(paddle).x == old(paddle).x,
        final(paddle).owner == old(paddle).owner,
        final(paddle).pos_ok(),
{
    let direction_speed: i64 = if up {
        PADDLE_SPEED
    } else if down {
        -PADDLE_SPEED
    } else {
        0
    };
    let displacement: i64 = scaled_velocity(direction_speed, dt_ms);
    let target: i64 = paddle.y + displacement;
    paddle.y = clamp(target, PADDLE_BOTTOM_BOUND, PADDLE_TOP_BOUND);
}

/// Move the AI paddle one time step toward the ball's current y
/// position, never faster than the fixed maximum AI speed.
pub fn enemy_paddle_ai(paddle: &mut Paddle, ball: &Ball, dt_ms: i64)
    requires
        old(paddle).pos_ok(),
        ball.pos_ok(),
        dt_ms <= DT_LIMIT_MS,
    ensures
        final(paddle).y as int == spec_ai_move(old(paddle).y as int, ball.y as int, dt_ms as int),
        PADDLE_BOTTOM_BOUND <= final(paddle).y <= PADDLE_TOP_BOUND,
        final(paddle).x == old(paddle).x,
        final(paddle).owner == old(paddle).owner,
        final(paddle).pos_ok(),
{
    let cap: i64 = scaled_velocity(MAX_AI_PADDLE_SPEED, dt_ms);
    let delta: i64 = clamp(ball.y - paddle.y, -cap, cap);
    let target: i64 = paddle.y + delta;
    paddle.y = clamp(target, PADDLE_BOTTOM_BOUND, PADDLE_TOP_BOUND);
}

/// The human paddle's y after a sequence of controller steps, each given
/// as (up held, down held, time step).
pub open spec fn player_y_after(y0: int, moves: Seq<(bool, bool, int)>) -> int
    decreases moves.len(),
{
    if moves.len() == 0 {
        y0
    } else {
        player_y_after(
            spec_player_move(y0, moves[0].0, moves[0].1, moves[0].2),
            moves.drop_first(),
        )
    }
}

/// The AI paddle's y after a sequence of controller steps, each given as
/// (ball y, time step).
pub open spec fn ai_y_after(y0: int, moves: Seq<(int, int)>) -> int
    decreases moves.len(),
{
    if moves.len() == 0 {
        y0
    } else {
        ai_y_after(spec_ai_move(y0, moves[0].0, moves[0].1), moves.drop_first())
    }
}

/// Clamp invariant of the player paddle: for positive time steps, its y
/// lies within the paddle bound range after any sequence of moves, from
/// any starting y.
pub proof fn lemma_player_paddle_stays_in_bounds(y0: int, moves: Seq<(bool, bool, int)>)
    requires
        moves.len() > 0,
        forall|i: int| 0 <= i < moves.len() ==> moves[i].2 > 0,
    ensures
        PADDLE_BOTTOM_BOUND <= player_y_after(y0, moves) <= PADDLE_TOP_BOUND,
    decreases moves.len(),
{
    let y1 = spec_player_move(y0, moves[0].0, moves[0].1, moves[0].2);
    lemma_clamp_idempotent(
        y0 + step_disp(spec_player_direction(moves[0].0, moves[0].1) * (PADDLE_SPEED as int), moves[0].2),
        PADDLE_BOTTOM_BOUND as int,
        PADDLE_TOP_BOUND as int,
    );
    if moves.len() > 1 {
        assert(forall|i: int| 0 <= i < moves.drop_first().len() ==> moves.drop_first()[i].2 > 0);
        lemma_player_paddle_stays_in_bounds(y1, moves.drop_first());
    } else {
        assert(player_y_after(y1, moves.drop_first()) == y1);
    }
}

/// Clamp invariant of the AI paddle: for positive time steps, its y lies
/// within the paddle bound range after any sequence of moves, from any
/// starting y.
pub proof fn lemma_ai_paddle_stays_in_bounds(y0: int, moves: Seq<(int, int)>)
    requires
        moves.len() > 0,
        forall|i: int| 0 <= i < moves.len() ==> moves[i].1 > 0,
    ensures
        PADDLE_BOTTOM_BOUND <= ai_y_after(y0, moves) <= PADDLE_TOP_BOUND,
    decreases moves.len(),
{
    let cap = step_disp(MAX_AI_PADDLE_SPEED as int, moves[0].1);
    let y1 = spec_ai_move(y0, moves[0].0, moves[0].1);
    lemma_clamp_idempotent(
        y0 + spec_clamp(moves[0].0 - y0, -cap, cap),
        PADDLE_BOTTOM_BOUND as int,
        PADDLE_TOP_BOUND as int,
    );
    if moves.len() > 1 {
        assert(forall|i: int| 0 <= i < moves.drop_first().len() ==> moves.drop_first()[i].1 > 0);
        lemma_ai_paddle_stays_in_bounds(y1, moves.drop_first());
    } else {
        assert(ai_y_after(y1, moves.drop_first()) == y1);
    }
}

} // verus!
