use table_tennis::collision::CollisionEvent;
use table_tennis::entities::{spawn_ball, Owner, Velocity, WallSide};
use table_tennis::scoring::{handle_round_over, tally_score, Scoreboard};
use table_tennis::sound::{play_collision_sound, CollisionSound, SoundPolicy};

#[test]
fn player_goal_event_scores_for_the_player() {
    let mut scores = Scoreboard::default();
    let events = vec![CollisionEvent::Wall(WallSide::PlayerGoal)];
    tally_score(&mut scores, &events);
    assert_eq!(scores.player, 1);
    assert_eq!(scores.ai, 0);
}

#[test]
fn enemy_goal_event_scores_for_the_ai() {
    let mut scores = Scoreboard::default();
    let events = vec![CollisionEvent::Wall(WallSide::EnemyGoal)];
    tally_score(&mut scores, &events);
    assert_eq!(scores.player, 0);
    assert_eq!(scores.ai, 1);
}

#[test]
fn non_goal_events_leave_the_tallies_alone() {
    let mut scores = Scoreboard { ai: 3, player: 4 };
    let events = vec![
        CollisionEvent::Wall(WallSide::Top),
        CollisionEvent::Wall(WallSide::Bottom),
        CollisionEvent::Paddle(Owner::Human),
        CollisionEvent::Paddle(Owner::AI),
    ];
    tally_score(&mut scores, &events);
    assert_eq!(scores.player, 4);
    assert_eq!(scores.ai, 3);
}

#[test]
fn each_goal_event_counts_independently() {
    let mut scores = Scoreboard::default();
    let events = vec![
        CollisionEvent::Wall(WallSide::PlayerGoal),
        CollisionEvent::Paddle(Owner::Human),
        CollisionEvent::Wall(WallSide::EnemyGoal),
    ];
    tally_score(&mut scores, &events);
    assert_eq!(scores.player, 1);
    assert_eq!(scores.ai, 1);
}

#[test]
fn a_goal_event_resets_the_ball() {
    let mut ball = spawn_ball();
    ball.x = 441;
    ball.y = 120;
    ball.velocity = Velocity { x: -283, y: 283 };
    let events = vec![CollisionEvent::Wall(WallSide::PlayerGoal)];
    handle_round_over(&mut ball, &events);
    assert_eq!(ball, spawn_ball());
}

#[test]
fn without_a_goal_the_ball_keeps_flying() {
    let mut ball = spawn_ball();
    ball.x = 123;
    let before = ball;
    let events = vec![
        CollisionEvent::Wall(WallSide::Top),
        CollisionEvent::Paddle(Owner::AI),
    ];
    handle_round_over(&mut ball, &events);
    assert_eq!(ball, before);
}

#[test]
fn several_goal_events_still_leave_one_fresh_ball() {
    let mut ball = spawn_ball();
    ball.x = 441;
    let events = vec![
        CollisionEvent::Wall(WallSide::PlayerGoal),
        CollisionEvent::Wall(WallSide::EnemyGoal),
    ];
    handle_round_over(&mut ball, &events);
    assert_eq!(ball, spawn_ball());
}

#[test]
fn debounce_suppresses_cues_inside_the_window() {
    let mut sound = CollisionSound::new(2, SoundPolicy::default());
    // The clock starts at zero and so does the last-trigger time, so a
    // cue right at startup is still inside the window.
    assert_eq!(sound.next(0), None);
    assert_eq!(sound.next(49), None);
    assert_eq!(sound.next(50), Some(0));
    assert_eq!(sound.next(80), None);
    assert_eq!(sound.next(99), None);
    assert_eq!(sound.next(100), Some(1));
}

#[test]
fn cues_cycle_through_the_fixed_list() {
    let mut sound = CollisionSound::new(2, SoundPolicy::default());
    assert_eq!(sound.next(50), Some(0));
    assert_eq!(sound.next(150), Some(1));
    assert_eq!(sound.next(250), Some(0));
    assert_eq!(sound.next(350), Some(1));
}

#[test]
fn no_qualifying_event_no_cue() {
    let mut sound = CollisionSound::new(2, SoundPolicy::default());
    let empty: Vec<CollisionEvent> = Vec::new();
    assert_eq!(play_collision_sound(&mut sound, &empty, 1000), None);
    // Under the default policy a goal is silent.
    let goal = vec![CollisionEvent::Wall(WallSide::PlayerGoal)];
    assert_eq!(play_collision_sound(&mut sound, &goal, 1000), None);
    // Nothing was consumed: a qualifying event still gets the first cue.
    let bounce = vec![CollisionEvent::Wall(WallSide::Top)];
    assert_eq!(play_collision_sound(&mut sound, &bounce, 1000), Some(0));
}

#[test]
fn goal_cues_come_back_under_an_audible_goal_policy() {
    let policy = SoundPolicy { cue_wall_bounce: false, cue_goal: true, cue_paddle: true };
    let mut sound = CollisionSound::new(2, policy);
    let bounce = vec![CollisionEvent::Wall(WallSide::Bottom)];
    assert_eq!(play_collision_sound(&mut sound, &bounce, 1000), None);
    let goal = vec![CollisionEvent::Wall(WallSide::EnemyGoal)];
    assert_eq!(play_collision_sound(&mut sound, &goal, 1000), Some(0));
}

#[test]
fn two_qualifying_events_emit_at_most_one_cue() {
    let mut sound = CollisionSound::new(2, SoundPolicy::default());
    let events = vec![
        CollisionEvent::Paddle(Owner::Human),
        CollisionEvent::Wall(WallSide::Top),
    ];
    assert_eq!(play_collision_sound(&mut sound, &events, 60), Some(0));
    // Straight after, the window suppresses the next tick's cue.
    assert_eq!(play_collision_sound(&mut sound, &events, 70), None);
}
