use vstd::prelude::*;

use crate::collision::CollisionEvent;
use crate::entities::{spawn_ball, spec_spawn_ball, Ball, WallSide};

verus! {

/// The two goal tallies. Counters only ever grow, and only the scoring
/// step writes them.
#[derive(Clone, Copy, Debug, PartialEq, Eq, Structural)]
pub struct Scoreboard {
    pub ai: usize,
    pub player: usize,
}

impl Default for Scoreboard {
    /// A fresh scoreboard with both tallies at zero.
    fn default() -> (r: Scoreboard)
        ensures
            r.ai == 0,
            r.player == 0,
    {
        Scoreboard { ai: 0, player: 0 }
    }
}

/// How many events in the list are a wall hit on `side`.
pub open spec fn count_goals(events: Seq<CollisionEvent>, side: WallSide) -> int
    decreases events.len(),
{
    if events.len() == 0 {
        0
    } else {
        count_goals(events.drop_last(), side) + (if events.last() == CollisionEvent::Wall(side) {
            1int
        } else {
            0int
        })
    }
}

/// The goal count is between zero and the list length.
pub proof fn lemma_count_goals_le_len(events: Seq<CollisionEvent>, side: WallSide)
    ensures
        0 <= count_goals(events, side) <= events.len(),
    decreases events.len(),
{
    if events.len() > 0 {
        lemma_count_goals_le_len(events.drop_last(), side);
    }
}

/// A prefix never counts more goals than the whole list.
pub proof fn lemma_count_goals_prefix_le(events: Seq<CollisionEvent>, i: int, side: WallSide)
    requires
        0 <= i <= events.len(),
    ensures
        count_goals(events.subrange(0, i), side) <= count_goals(events, side),
    decreases events.len(),
{
    if i == events.len() {
        assert(events.subrange(0, i) =~= events);
    } else {
        assert(events.subrange(0, i) =~= events.drop_last().subrange(0, i));
        lemma_count_goals_prefix_le(events.drop_last(), i, side);
    }
}

/// Extending a prefix by one event adds one to its goal count exactly
/// when that event is a goal on `side`.
pub proof fn lemma_count_goals_step(events: Seq<CollisionEvent>, i: int, side: WallSide)
    requires
        0 <= i < events.len(),
    ensures
        count_goals(events.subrange(0, i + 1), side) == count_goals(events.subrange(0, i), side)
            + (if events[i] == CollisionEvent::Wall(side) {
            1int
        } else {
            0int
        }),
{
    let s = events.subrange(0, i + 1);
    assert(s.drop_last() =~= events.subrange(0, i));
    assert(s.last() == events[i]);
}

/// A list that holds no goal event on `side` counts zero for it.
pub proof fn lemma_count_goals_zero_if_absent(events: Seq<CollisionEvent>, side: WallSide)
    requires
        !events.contains(CollisionEvent::Wall(side)),
    ensures
        count_goals(events, side) == 0,
    decreases events.len(),
{
    if events.len() > 0 {
        assert(events.last() != CollisionEvent::Wall(side));
        assert forall|k: int| 0 <= k < events.drop_last().len() implies events.drop_last()[k]
            != CollisionEvent::Wall(side) by {
            assert(events[k] == events.drop_last()[k]);
        }
        if events.drop_last().contains(CollisionEvent::Wall(side)) {
            let k = choose|k: int|
                0 <= k < events.drop_last().len() && events.drop_last()[k]
                    == CollisionEvent::Wall(side);
            assert(false);
        }
        lemma_count_goals_zero_if_absent(events.drop_last(), side);
    }
}

/// A duplicate-free list holds each goal event at most once.
pub proof fn lemma_count_goals_le_one_if_nodup(events: Seq<CollisionEvent>, side: WallSide)
    requires
        events.no_duplicates(),
    ensures
        count_goals(events, side) <= 1,
    decreases events.len(),
{
    if events.len() > 0 {
        let prefix = events.drop_last();
        assert forall|i1: int, j1: int|
            0 <= i1 < prefix.len() && 0 <= j1 < prefix.len() && i1 != j1 implies prefix[i1]
            != prefix[j1] by {
            assert(events[i1] == prefix[i1]);
            assert(events[j1] == prefix[j1]);
        }
        if events.last() == CollisionEvent::Wall(side) {
            assert forall|k: int| 0 <= k < prefix.len() implies prefix[k] != CollisionEvent::Wall(
                side,
            ) by {
                assert(events[k] == prefix[k]);
                assert(events[k] != events[events.len() - 1]);
            }
            if prefix.contains(CollisionEvent::Wall(side)) {
                let k = choose|k: int|
                    0 <= k < prefix.len() && prefix[k] == CollisionEvent::Wall(side);
                assert(false);
            }
            lemma_count_goals_zero_if_absent(prefix, side);
        } else {
            lemma_count_goals_le_one_if_nodup(prefix, side);
        }
    }
}

/// Tally this tick's goal events: a hit on the enemy goal wall scores
/// for the AI, a hit on the player goal wall scores for the player, and
/// every other event leaves the tallies alone.
pub fn tally_score(scores: &mut Scoreboard, events: &Vec<CollisionEvent>)
    requires
        old(scores).player + count_goals(events@, WallSide::PlayerGoal) <= usize::MAX,
        old(scores).ai + count_goals(events@, WallSide::EnemyGoal) <= usize::MAX,
    ensures
        final(scores).player == old(scores).player + count_goals(events@, WallSide::PlayerGoal),
        final(scores).ai == old(scores).ai + count_goals(events@, WallSide::EnemyGoal),
        final(scores).player >= old(scores).player,
        final(scores).ai >= old(scores).ai,
{
    proof {
        lemma_count_goals_le_len(events@, WallSide::PlayerGoal);
        lemma_count_goals_le_len(events@, WallSide::EnemyGoal);
    }
    let n: usize = events.len();
    let mut i: usize = 0;
    while i < n
        invariant
            i <= n,
            n == events@.len(),
            old(scores).player + count_goals(events@, WallSide::PlayerGoal) <= usize::MAX,
            old(scores).ai + count_goals(events@, WallSide::EnemyGoal) <= usize::MAX,
            scores.player == old(scores).player + count_goals(
                events@.subrange(0, i as int),
                WallSide::PlayerGoal,
            ),
            scores.ai == old(scores).ai + count_goals(
                events@.subrange(0, i as int),
                WallSide::EnemyGoal,
            ),
        decreases n - i,
    {
        proof {
            lemma_count_goals_le_len(events@.subrange(0, i as int), WallSide::PlayerGoal);
            lemma_count_goals_le_len(events@.subrange(0, i as int), WallSide::EnemyGoal);
            lemma_count_goals_step(events@, i as int, WallSide::PlayerGoal);
            lemma_count_goals_step(events@, i as int, WallSide::EnemyGoal);
            lemma_count_goals_prefix_le(events@, i as int + 1, WallSide::PlayerGoal);
            lemma_count_goals_prefix_le(events@, i as int + 1, WallSide::EnemyGoal);
        }
        match events[i] {
            CollisionEvent::Paddle(_) => {},
            CollisionEvent::Wall(WallSide::EnemyGoal) => {
                scores.ai = scores.ai + 1;
            },
            CollisionEvent::Wall(WallSide::PlayerGoal) => {
                scores.player = scores.player + 1;
            },
            CollisionEvent::Wall(_) => {},
        }
        i = i + 1;
    }
    proof {
        assert(events@.subrange(0, n as int) =~= events@);
    }
}

/// Whether the tick's event list carries a goal: a wall hit on either
/// goal side, which ends the round.
pub open spec fn has_goal_event(events: Seq<CollisionEvent>) -> bool {
    events.contains(CollisionEvent::Wall(WallSide::PlayerGoal)) || events.contains(
        CollisionEvent::Wall(WallSide::EnemyGoal),
    )
}

/// End the round if any goal event arrived this tick: the ball is put
/// back to the fixed starting state. However many goal events the tick
/// carried, one reset happens and one ball remains. Without a goal the
/// ball is untouched.
pub fn handle_round_over(ball: &mut Ball, events: &Vec<CollisionEvent>)
    ensures
        has_goal_event(events@) ==> *final(ball) == spec_spawn_ball(),
        !has_goal_event(events@) ==> *final(ball) == *old(ball),
{
    let n: usize = events.len();
    let mut i: usize = 0;
    while i < n
        invariant
            i <= n,
            n == events@.len(),
            *ball == *old(ball),
            forall|j: int|
                0 <= j < i ==> (events@[j] != CollisionEvent::Wall(WallSide::PlayerGoal)
                    && events@[j] != CollisionEvent::Wall(WallSide::EnemyGoal)),
        decreases n - i,
    {
        let is_goal: bool = match events[i] {
            CollisionEvent::Wall(WallSide::PlayerGoal) => true,
            CollisionEvent::Wall(WallSide::EnemyGoal) => true,
            _ => false,
        };
        if is_goal {
            assert(events@.contains(events@[i as int]));
            *ball = spawn_ball();
            return;
        }
        i = i + 1;
    }
    proof {
        if events@.contains(CollisionEvent::Wall(WallSide::PlayerGoal)) {
            let k = choose|k: int|
                0 <= k < events@.len() && events@[k] == CollisionEvent::Wall(WallSide::PlayerGoal);
            assert(false);
        }
        if events@.contains(CollisionEvent::Wall(WallSide::EnemyGoal)) {
            let k = choose|k: int|
                0 <= k < events@.len() && events@[k] == CollisionEvent::Wall(WallSide::EnemyGoal);
            assert(false);
        }
    }
}

} // verus!
