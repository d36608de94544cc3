use vstd::prelude::*;

use crate::collision::CollisionEvent;
use crate::constants::DEBOUNCE_WINDOW_MS;
use crate::entities::{Owner, WallSide};

verus! {

/// Which kinds of collision should ask for a sound cue. Which bounces
/// deserve a cue is a matter of taste, so it is policy, not geometry:
/// the default cues plain wall bounces and paddle hits and keeps goals
/// silent.
#[derive(Clone, Copy, Debug, PartialEq, Eq, Structural)]
pub struct SoundPolicy {
    pub cue_wall_bounce: bool,
    pub cue_goal: bool,
    pub cue_paddle: bool,
}

impl Default for SoundPolicy {
    /// Cue top and bottom wall bounces and paddle hits; goals stay
    /// silent.
    fn default() -> (r: SoundPolicy)
        ensures
            r == (SoundPolicy { cue_wall_bounce: true, cue_goal: false, cue_paddle: true }),
    {
        SoundPolicy { cue_wall_bounce: true, cue_goal: false, cue_paddle: true }
    }
}

/// Whether one event asks for a cue under the policy.
pub open spec fn event_qualifies(ev: CollisionEvent, policy: SoundPolicy) -> bool {
    match ev {
        CollisionEvent::Wall(WallSide::Top) | CollisionEvent::Wall(WallSide::Bottom) => policy
            .cue_wall_bounce,
        CollisionEvent::Wall(WallSide::PlayerGoal) | CollisionEvent::Wall(WallSide::EnemyGoal) => policy
            .cue_goal,
        CollisionEvent::Paddle(_) => policy.cue_paddle,
    }
}

/// Whether any event in the list asks for a cue under the policy.
pub open spec fn any_event_qualifies(events: Seq<CollisionEvent>, policy: SoundPolicy) -> bool {
    exists|i: int| 0 <= i < events.len() && event_qualifies(events[i], policy)
}

/// The debounced, cycling collision-sound state: an index into the
/// host's fixed ordered list of cues, the time the last cue was
/// accepted, and the trigger policy.
#[derive(Clone, Copy, Debug, PartialEq, Eq, Structural)]
pub struct CollisionSound {
    pub num_cues: usize,
    pub next_cue: usize,
    pub last_ms: i64,
    pub policy: SoundPolicy,
}

impl CollisionSound {
    /// There is at least one cue to cycle through, the cycle index stays
    /// inside the cue list, and the last trigger time never precedes the
    /// start of the clock.
    pub open spec fn wf(self) -> bool {
        &&& self.num_cues >= 1
        &&& self.next_cue < self.num_cues
        &&& self.last_ms >= 0
    }

    /// Fresh sound state over a fixed list of `num_cues` cues, starting
    /// at the first cue with no trigger recorded.
    pub fn new(num_cues: usize, policy: SoundPolicy) -> (r: CollisionSound)
        requires
            num_cues >= 1,
        ensures
            r == (CollisionSound { num_cues, next_cue: 0, last_ms: 0, policy }),
            r.wf(),
    {
        CollisionSound { num_cues, next_cue: 0, last_ms: 0, policy }
    }

    /// Hand out the next cue of the cycle, unless a cue was accepted
    /// less than the debounce window ago: then nothing is emitted and
    /// nothing advances. `now_ms` is the wall-clock time since startup.
    pub fn next(&mut self, now_ms: i64) -> (cue: Option<usize>)
        requires
            old(self).wf(),
            now_ms >= 0,
        ensures
            final(self).wf(),
            now_ms - old(self).last_ms < DEBOUNCE_WINDOW_MS ==> (cue is None && *final(self)
                == *old(self)),
            now_ms - old(self).last_ms >= DEBOUNCE_WINDOW_MS ==> (cue == Some(old(self).next_cue)
                && final(self).last_ms == now_ms && final(self).next_cue as int == (old(
                self,
            ).next_cue + 1) % (old(self).num_cues as int) && final(self).num_cues == old(
                self,
            ).num_cues && final(self).policy == old(self).policy),
    {
        if now_ms - self.last_ms < DEBOUNCE_WINDOW_MS {
            return None;
        }
        self.last_ms = now_ms;
        let cue: usize = self.next_cue;
        self.next_cue = (cue + 1) % self.num_cues;
        Some(cue)
    }
}

/// Exec mirror of `event_qualifies`.
fn qualifies(ev: &CollisionEvent, policy: &SoundPolicy) -> (r: bool)
    ensures
        r == event_qualifies(*ev, *policy),
{
    match ev {
        CollisionEvent::Wall(WallSide::Top) | CollisionEvent::Wall(WallSide::Bottom) => policy
            .cue_wall_bounce,
        CollisionEvent::Wall(WallSide::PlayerGoal) | CollisionEvent::Wall(WallSide::EnemyGoal) => policy
            .cue_goal,
        CollisionEvent::Paddle(_) => policy.cue_paddle,
    }
}

/// Ask for at most one cue for this tick's event list: none unless some
/// event qualifies under the policy, and none within the debounce window
/// of the last accepted cue. However many events qualify, at most one
/// cue comes out per tick.
pub fn play_collision_sound(sound: &mut CollisionSound, events: &Vec<CollisionEvent>, now_ms: i64) -> (cue: Option<usize>)
    requires
        old(sound).wf(),
        now_ms >= 0,
    ensures
        final(sound).wf(),
        !any_event_qualifies(events@, old(sound).policy) ==> (cue is None && *final(sound) == *old(
            sound,
        )),
        any_event_qualifies(events@, old(sound).policy) && now_ms - old(sound).last_ms
            < DEBOUNCE_WINDOW_MS ==> (cue is None && *final(sound) == *old(sound)),
        any_event_qualifies(events@, old(sound).policy) && now_ms - old(sound).last_ms
            >= DEBOUNCE_WINDOW_MS ==> (cue == Some(old(sound).next_cue) && final(sound).last_ms
            == now_ms && final(sound).next_cue as int == (old(sound).next_cue + 1) % (old(
            sound,
        ).num_cues as int) && final(sound).num_cues == old(sound).num_cues && final(sound).policy
            == old(sound).policy),
{
    let n: usize = events.len();
    let mut i: usize = 0;
    while i < n
        invariant
            i <= n,
            n == events@.len(),
            *sound == *old(sound),
            old(sound).wf(),
            now_ms >= 0,
            forall|j: int| 0 <= j < i ==> !event_qualifies(events@[j], sound.policy),
        decreases n - i,
    {
        if qualifies(&events[i], &sound.policy) {
            assert(event_qualifies(events@[i as int], sound.policy));
            return sound.next(now_ms);
        }
        i = i + 1;
    }
    proof {
        if any_event_qualifies(events@, old(sound).policy) {
            let k = choose|k: int|
                0 <= k < events@.len() && event_qualifies(events@[k], old(sound).policy);
            assert(false);
        }
    }
    None
}

} // verus!
