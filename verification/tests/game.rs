use table_tennis::collision::CollisionEvent;
use table_tennis::entities::{spawn_ball, Owner, Velocity, WallSide};
use table_tennis::game::GameState;
use table_tennis::sound::SoundPolicy;

fn fresh_game() -> GameState {
    GameState::new(2, SoundPolicy::default())
}

#[test]
fn new_game_has_the_fixed_start_state() {
    let game = fresh_game();
    assert_eq!(game.player.owner, Owner::Human);
    assert_eq!((game.player.x, game.player.y), (390, 0));
    assert_eq!(game.enemy.owner, Owner::AI);
    assert_eq!((game.enemy.x, game.enemy.y), (-390, 0));
    assert_eq!(game.ball, spawn_ball());
    assert_eq!((game.scores.player, game.scores.ai), (0, 0));
    assert_eq!(game.sound.num_cues, 2);
    assert_eq!(game.sound.next_cue, 0);
    assert_eq!(game.sound.last_ms, 0);
}

#[test]
fn quiet_tick_advances_everything_and_reports_nothing() {
    let mut game = fresh_game();
    let (events, cue) = game.tick(false, false, 16, 16);
    assert!(events.is_empty());
    assert_eq!(cue, None);
    // Ball: 283 units/s for 16 ms is 4 units, on both axes.
    assert_eq!((game.ball.x, game.ball.y), (-46, -4));
    assert_eq!(game.ball.velocity, Velocity { x: 283, y: -283 });
    // Player paddle holds, the AI paddle chases the ball's old y = 0,
    // which it already has.
    assert_eq!(game.player.y, 0);
    assert_eq!(game.enemy.y, 0);
    assert_eq!((game.scores.player, game.scores.ai), (0, 0));
}

#[test]
fn tick_moves_the_paddles_by_their_controllers() {
    let mut game = fresh_game();
    game.ball.y = 280;
    let (_, _) = game.tick(true, false, 16, 16);
    assert_eq!(game.player.y, 8);
    // The AI is capped at 500 units/s: 8 units in 16 ms.
    assert_eq!(game.enemy.y, 8);
}

#[test]
fn goal_tick_scores_resets_and_stays_silent() {
    // The ball reaches the player goal wall moving right: the tick must
    // report the goal, score exactly one point for the player, and
    // serve a fresh ball.
    let mut game = fresh_game();
    game.ball.x = 437;
    game.ball.velocity = Velocity { x: 283, y: -283 };
    let (events, cue) = game.tick(false, false, 16, 1000);
    assert_eq!(events.len(), 1);
    assert!(events.contains(&CollisionEvent::Wall(WallSide::PlayerGoal)));
    assert_eq!(game.scores.player, 1);
    assert_eq!(game.scores.ai, 0);
    assert_eq!(game.ball, spawn_ball());
    // Goals are silent under the default policy.
    assert_eq!(cue, None);
    assert_eq!(game.sound.last_ms, 0);
}

#[test]
fn enemy_goal_tick_scores_for_the_ai() {
    let mut game = fresh_game();
    game.ball.x = -437;
    game.ball.velocity = Velocity { x: -283, y: 283 };
    let (events, _) = game.tick(false, false, 16, 1000);
    assert!(events.contains(&CollisionEvent::Wall(WallSide::EnemyGoal)));
    assert_eq!(game.scores.player, 0);
    assert_eq!(game.scores.ai, 1);
    assert_eq!(game.ball, spawn_ball());
}

#[test]
fn bounce_tick_flips_the_velocity_and_cues_a_sound() {
    let mut game = fresh_game();
    game.ball.x = 0;
    game.ball.y = 280;
    game.ball.velocity = Velocity { x: 100, y: 283 };
    let (events, cue) = game.tick(false, false, 16, 100);
    assert_eq!(events.len(), 1);
    assert!(events.contains(&CollisionEvent::Wall(WallSide::Top)));
    // Moved by (1, 4), then the y component reflected off the top wall.
    assert_eq!((game.ball.x, game.ball.y), (1, 284));
    assert_eq!(game.ball.velocity, Velocity { x: 100, y: -283 });
    assert_eq!((game.scores.player, game.scores.ai), (0, 0));
    assert_eq!(cue, Some(0));
    assert_eq!(game.sound.last_ms, 100);
    assert_eq!(game.sound.next_cue, 1);
}

#[test]
fn paddle_hit_and_goal_in_one_tick_cue_once_and_score_once() {
    // A corner tick that yields two events at once, one of them a goal:
    // the scorer counts the goal exactly once and the debouncer hands
    // out at most one cue.
    let policy = SoundPolicy { cue_wall_bounce: true, cue_goal: true, cue_paddle: true };
    let mut game = GameState::new(2, policy);
    game.ball.x = 437;
    game.ball.y = 287;
    game.ball.velocity = Velocity { x: 283, y: 283 };
    let (events, cue) = game.tick(false, false, 16, 1000);
    assert_eq!(events.len(), 2);
    assert!(events.contains(&CollisionEvent::Wall(WallSide::Top)));
    assert!(events.contains(&CollisionEvent::Wall(WallSide::PlayerGoal)));
    assert_eq!(game.scores.player, 1);
    assert_eq!(game.scores.ai, 0);
    assert_eq!(cue, Some(0));
    assert_eq!(game.sound.next_cue, 1);
    assert_eq!(game.ball, spawn_ball());
}

#[test]
fn speed_is_conserved_across_many_ticks_without_goals() {
    let mut game = fresh_game();
    let speed_sq = |v: Velocity| v.x * v.x + v.y * v.y;
    let start: i64 = speed_sq(game.ball.velocity);
    let mut now: i64 = 0;
    for _ in 0..2000 {
        now += 16;
        let (events, _) = game.tick(false, false, 16, now);
        let goal = events.contains(&CollisionEvent::Wall(WallSide::PlayerGoal))
            || events.contains(&CollisionEvent::Wall(WallSide::EnemyGoal));
        assert_eq!(speed_sq(game.ball.velocity), start);
        if goal {
            // The serve replaces the ball, which restarts the episode
            // at the same fixed speed anyway.
            assert_eq!(game.ball, spawn_ball());
        }
    }
}
