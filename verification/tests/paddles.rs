use table_tennis::constants::{PADDLE_BOTTOM_BOUND, PADDLE_TOP_BOUND};
use table_tennis::entities::{spawn_ball, Ball, Owner, Paddle, Velocity};
use table_tennis::kinematics::apply_velocity;
use table_tennis::paddles::{enemy_paddle_ai, move_player_paddle};

#[test]
fn player_paddle_moves_up_with_up_held() {
    let mut paddle = Paddle::new(Owner::Human);
    move_player_paddle(&mut paddle, true, false, 16);
    // 500 units/s for 16 ms is 8 units.
    assert_eq!(paddle.y, 8);
}

#[test]
fn player_paddle_moves_down_with_down_held() {
    let mut paddle = Paddle::new(Owner::Human);
    move_player_paddle(&mut paddle, false, true, 16);
    assert_eq!(paddle.y, -8);
}

#[test]
fn player_paddle_up_wins_over_down() {
    let mut paddle = Paddle::new(Owner::Human);
    move_player_paddle(&mut paddle, true, true, 16);
    assert_eq!(paddle.y, 8);
}

#[test]
fn player_paddle_still_without_input() {
    let mut paddle = Paddle::new(Owner::Human);
    paddle.y = 100;
    move_player_paddle(&mut paddle, false, false, 16);
    assert_eq!(paddle.y, 100);
}

#[test]
fn player_paddle_clamps_at_the_top_bound() {
    let mut paddle = Paddle::new(Owner::Human);
    // A full second upward would travel 500 units; the bound cuts it.
    move_player_paddle(&mut paddle, true, false, 1000);
    assert_eq!(paddle.y, PADDLE_TOP_BOUND);
    assert_eq!(paddle.y, 225);
}

#[test]
fn player_paddle_clamps_at_the_bottom_bound() {
    let mut paddle = Paddle::new(Owner::Human);
    move_player_paddle(&mut paddle, false, true, 1000);
    assert_eq!(paddle.y, PADDLE_BOTTOM_BOUND);
    assert_eq!(paddle.y, -225);
}

#[test]
fn player_paddle_stays_in_bounds_over_many_moves() {
    let mut paddle = Paddle::new(Owner::Human);
    for _ in 0..200 {
        move_player_paddle(&mut paddle, true, false, 16);
        assert!(PADDLE_BOTTOM_BOUND <= paddle.y && paddle.y <= PADDLE_TOP_BOUND);
    }
    assert_eq!(paddle.y, PADDLE_TOP_BOUND);
}

#[test]
fn zero_or_negative_time_step_moves_nothing() {
    let mut paddle = Paddle::new(Owner::Human);
    paddle.y = 50;
    move_player_paddle(&mut paddle, true, false, 0);
    assert_eq!(paddle.y, 50);
    move_player_paddle(&mut paddle, true, false, -16);
    assert_eq!(paddle.y, 50);

    let mut ball = spawn_ball();
    apply_velocity(&mut ball, 0);
    assert_eq!((ball.x, ball.y), (-50, 0));
    apply_velocity(&mut ball, -100);
    assert_eq!((ball.x, ball.y), (-50, 0));
}

#[test]
fn ai_paddle_speed_cap_limits_the_pursuit() {
    // Paddle at y = 0, ball at y = 200, 500 units/s cap, 100 ms step:
    // the raw delta 200 is cut to 50, not chased in one move.
    let mut paddle = Paddle::new(Owner::AI);
    let mut ball = spawn_ball();
    ball.y = 200;
    enemy_paddle_ai(&mut paddle, &ball, 100);
    assert_eq!(paddle.y, 50);
}

#[test]
fn ai_paddle_tracks_downward_too() {
    let mut paddle = Paddle::new(Owner::AI);
    paddle.y = 100;
    let mut ball = spawn_ball();
    ball.y = -300;
    enemy_paddle_ai(&mut paddle, &ball, 100);
    assert_eq!(paddle.y, 50);
}

#[test]
fn ai_paddle_reaches_a_near_ball_exactly() {
    let mut paddle = Paddle::new(Owner::AI);
    let mut ball = spawn_ball();
    ball.y = 30;
    enemy_paddle_ai(&mut paddle, &ball, 100);
    assert_eq!(paddle.y, 30);
}

#[test]
fn ai_paddle_holds_still_on_equal_y() {
    let mut paddle = Paddle::new(Owner::AI);
    paddle.y = 120;
    let mut ball = spawn_ball();
    ball.y = 120;
    enemy_paddle_ai(&mut paddle, &ball, 100);
    assert_eq!(paddle.y, 120);
}

#[test]
fn ai_paddle_clamps_at_its_bounds() {
    let mut paddle = Paddle::new(Owner::AI);
    paddle.y = 220;
    let mut ball = spawn_ball();
    ball.y = 290;
    enemy_paddle_ai(&mut paddle, &ball, 1000);
    assert_eq!(paddle.y, PADDLE_TOP_BOUND);
}

#[test]
fn ball_advances_by_velocity_times_dt() {
    let mut ball = spawn_ball();
    apply_velocity(&mut ball, 100);
    // 283 units/s for 100 ms is 28 units, truncated toward zero on both
    // axes.
    assert_eq!((ball.x, ball.y), (-50 + 28, -28));
    assert_eq!(ball.velocity, Velocity { x: 283, y: -283 });
}

#[test]
fn ball_advance_truncates_toward_zero() {
    let mut ball = Ball { x: 0, y: 0, velocity: Velocity { x: -999, y: 999 } };
    apply_velocity(&mut ball, 1);
    // -999 / 1000 of a unit truncates to zero, not down to -1.
    assert_eq!((ball.x, ball.y), (0, 0));
}

#[test]
fn spawned_ball_has_the_fixed_start_state() {
    let ball = spawn_ball();
    assert_eq!((ball.x, ball.y), (-50, 0));
    assert_eq!(ball.velocity, Velocity { x: 283, y: -283 });
}
