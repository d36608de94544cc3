use vstd::prelude::*;

use crate::constants::{DT_LIMIT_MS, POS_LIMIT, STEP_LIMIT, VEL_LIMIT};
use crate::entities::Ball;

verus! {

/// Integer division by 1000 that truncates toward zero, as the machine
/// division does.
pub open spec fn div1000_toward_zero(p: int) -> int {
    if p >= 0 {
        p / 1000
    } else {
        -((-p) / 1000)
    }
}

/// Displacement of one integration step: `velocity * dt`, with the
/// velocity in units per second and the step in milliseconds. A step of
/// zero or negative length moves nothing: time never runs backward.
pub open spec fn step_disp(v: int, dt_ms: int) -> int {
    if dt_ms <= 0 {
        0
    } else {
        div1000_toward_zero(v * dt_ms)
    }
}

/// The displacement `velocity * dt` of one integration step, truncated
/// to whole world units.
pub fn scaled_velocity(v: i64, dt_ms: i64) -> (r: i64)
    requires
        -VEL_LIMIT <= v <= VEL_LIMIT,
        dt_ms <= DT_LIMIT_MS,
    ensures
        r as int == step_disp(v as int, dt_ms as int),
        -STEP_LIMIT <= r <= STEP_LIMIT,
        v >= 0 ==> r >= 0,
        v <= 0 ==> r <= 0,
{
    if dt_ms <= 0 {
        return 0;
    }
    let negative: bool = v < 0;
    let magnitude: u64 = if negative {
        (-v) as u64
    } else {
        v as u64
    };
    assert(magnitude * (dt_ms as u64) <= VEL_LIMIT * DT_LIMIT_MS) by (nonlinear_arith)
        requires
            magnitude <= VEL_LIMIT,
            0 < dt_ms <= DT_LIMIT_MS,
    ;
    assert(magnitude == 0 ==> magnitude * (dt_ms as u64) == 0) by (nonlinear_arith);
    let product: u64 = magnitude * (dt_ms as u64);
    let quotient: u64 = product / 1000;
    let scaled: i64 = quotient as i64;
    if negative {
        assert((-(v as int)) * (dt_ms as int) == -((v as int) * (dt_ms as int))) by (nonlinear_arith);
        -scaled
    } else {
        scaled
    }
}

/// Advance the ball by its velocity for one time step:
/// `position' = position + velocity * dt`. The velocity is untouched.
pub fn apply_velocity(ball: &mut Ball, dt_ms: i64)
    requires
        old(ball).wf(),
        old(ball).pos_ok(),
        dt_ms <= DT_LIMIT_MS,
    ensures
        final(ball).x as int == old(ball).x as int + step_disp(
            old(ball).velocity.x as int,
            dt_ms as int,
        ),
        final(ball).y as int == old(ball).y as int + step_disp(
            old(ball).velocity.y as int,
            dt_ms as int,
        ),
        final(ball).velocity == old(ball).velocity,
        final(ball).wf(),
        old(ball).x - STEP_LIMIT <= final(ball).x <= old(ball).x + STEP_LIMIT,
        old(ball).y - STEP_LIMIT <= final(ball).y <= old(ball).y + STEP_LIMIT,
        -(POS_LIMIT + STEP_LIMIT) <= final(ball).x <= POS_LIMIT + STEP_LIMIT,
        -(POS_LIMIT + STEP_LIMIT) <= final(ball).y <= POS_LIMIT + STEP_LIMIT,
{
    let dx: i64 = scaled_velocity(ball.velocity.x, dt_ms);
    let dy: i64 = scaled_velocity(ball.velocity.y, dt_ms);
    ball.x = ball.x + dx;
    ball.y = ball.y + dy;
}

} // verus!
