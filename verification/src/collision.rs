use vstd::prelude::*;

use crate::constants::BALL_HALF_SIZE;
use crate::entities::{wall_collider, Ball, Owner, Paddle, WallSide, Walls};
use crate::geometry::{collide, collide_at, overlaps, Collider, Collision};

verus! {

/// A collision the ball had this tick, tagged with what it hit. Events
/// are plain values, compared structurally, and each tick's event list
/// carries no duplicates.
#[derive(Clone, Copy, Debug, PartialEq, Eq, Structural)]
pub enum CollisionEvent {
    Wall(WallSide),
    Paddle(Owner),
}

/// Whether this tick's geometry produces `ev`: a wall event exactly when
/// the ball overlaps that wall, a paddle event exactly when the ball
/// overlaps that owner's paddle.
pub open spec fn event_happens(ball: Ball, player: Paddle, enemy: Paddle, ev: CollisionEvent) -> bool {
    match ev {
        CollisionEvent::Wall(side) => overlaps(ball.spec_collider(), wall_collider(side)),
        CollisionEvent::Paddle(Owner::Human) => overlaps(
            ball.spec_collider(),
            player.spec_collider(),
        ),
        CollisionEvent::Paddle(Owner::AI) => overlaps(ball.spec_collider(), enemy.spec_collider()),
    }
}

/// Append `ev` unless an equal event is already present, so one physical
/// contact reported twice cannot double-count downstream.
fn push_unique(events: &mut Vec<CollisionEvent>, ev: CollisionEvent)
    ensures
        forall|e: CollisionEvent| final(events)@.contains(e) <==> (old(events)@.contains(e) || e
            == ev),
        old(events)@.no_duplicates() ==> final(events)@.no_duplicates(),
{
    let n: usize = events.len();
    let mut i: usize = 0;
    while i < n
        invariant
            i <= n,
            n == events@.len(),
            *events == *old(events),
            forall|j: int| 0 <= j < i ==> events@[j] != ev,
        decreases n - i,
    {
        if events[i] == ev {
            assert(events@.contains(ev));
            return;
        }
        i = i + 1;
    }
    assert(!old(events)@.contains(ev));
    events.push(ev);
    assert forall|e: CollisionEvent| events@.contains(e) implies (old(events)@.contains(e) || e
        == ev) by {
        let k = choose|k: int| 0 <= k < events@.len() && events@[k] == e;
        if k < old(events)@.len() {
            assert(old(events)@[k] == e);
        }
    }
    assert(events@[events@.len() - 1] == ev);
    assert(events@.contains(ev));
    assert forall|e: CollisionEvent| old(events)@.contains(e) implies events@.contains(e) by {
        let k = choose|k: int| 0 <= k < old(events)@.len() && old(events)@[k] == e;
        assert(events@[k] == e);
    }
    proof {
        if old(events)@.no_duplicates() {
            assert forall|i1: int, j1: int|
                0 <= i1 < events@.len() && 0 <= j1 < events@.len() && i1 != j1 implies events@[i1]
                != events@[j1] by {
                if i1 < old(events)@.len() && j1 < old(events)@.len() {
                } else if j1 == old(events)@.len() {
                    assert(old(events)@[i1] != ev);
                } else {
                    assert(old(events)@[j1] != ev);
                }
            }
        }
    }
}

/// Test the ball against every collider in the arena and collect one
/// typed event per overlapping collider, deduplicated by structural
/// equality. Which events come out does not depend on the order the
/// colliders are visited in.
pub fn generate_ball_collide_events(ball: &Ball, player: &Paddle, enemy: &Paddle) -> (events: Vec<
    CollisionEvent,
>)
    requires
        ball.pos_ok(),
        player.pos_ok(),
        enemy.pos_ok(),
        player.owner == Owner::Human,
        enemy.owner == Owner::AI,
    ensures
        forall|ev: CollisionEvent| events@.contains(ev) <==> event_happens(
            *ball,
            *player,
            *enemy,
            ev,
        ),
        events@.no_duplicates(),
{
    let ball_box: Collider = ball.collider();
    let mut events: Vec<CollisionEvent> = Vec::new();

    let top: Walls = Walls::new(WallSide::Top);
    if collide(&ball_box, &top.collider).is_some() {
        push_unique(&mut events, CollisionEvent::Wall(WallSide::Top));
    }
    let bottom: Walls = Walls::new(WallSide::Bottom);
    if collide(&ball_box, &bottom.collider).is_some() {
        push_unique(&mut events, CollisionEvent::Wall(WallSide::Bottom));
    }
    let enemy_goal: Walls = Walls::new(WallSide::EnemyGoal);
    if collide(&ball_box, &enemy_goal.collider).is_some() {
        push_unique(&mut events, CollisionEvent::Wall(WallSide::EnemyGoal));
    }
    let player_goal: Walls = Walls::new(WallSide::PlayerGoal);
    if collide(&ball_box, &player_goal.collider).is_some() {
        push_unique(&mut events, CollisionEvent::Wall(WallSide::PlayerGoal));
    }
    if collide(&ball_box, &player.collider()).is_some() {
        push_unique(&mut events, CollisionEvent::Paddle(Owner::Human));
    }
    if collide(&ball_box, &enemy.collider()).is_some() {
        push_unique(&mut events, CollisionEvent::Paddle(Owner::AI));
    }
    events
}

/// The contact test the resolver re-evaluates: the ball's box at
/// position (bx, by) against the collider `c`.
pub open spec fn ball_contact_at(bx: int, by: int, c: Collider) -> Option<Collision> {
    collide_at(
        bx,
        by,
        BALL_HALF_SIZE as int,
        BALL_HALF_SIZE as int,
        c.cx as int,
        c.cy as int,
        c.hx as int,
        c.hy as int,
    )
}

/// One resolution step of the ball's velocity `v` against the collider
/// `c`: reflect the component that points into the penetrated face, and
/// only that component, and only if it points into the face. `Inside`
/// contacts reflect nothing.
pub open spec fn resolve_one(v: (int, int), bx: int, by: int, c: Collider) -> (int, int) {
    match ball_contact_at(bx, by, c) {
        Option::None => v,
        Option::Some(Collision::Left) => if v.0 > 0 {
            (-v.0, v.1)
        } else {
            v
        },
        Option::Some(Collision::Right) => if v.0 < 0 {
            (-v.0, v.1)
        } else {
            v
        },
        Option::Some(Collision::Top) => if v.1 < 0 {
            (v.0, -v.1)
        } else {
            v
        },
        Option::Some(Collision::Bottom) => if v.1 > 0 {
            (v.0, -v.1)
        } else {
            v
        },
        Option::Some(Collision::Inside) => v,
    }
}

/// Resolution against the whole arena, in the fixed order the resolver
/// walks the colliders: the four walls, then the two paddles.
pub open spec fn resolve_all(
    v: (int, int),
    bx: int,
    by: int,
    player: Paddle,
    enemy: Paddle,
) -> (int, int) {
    let v1 = resolve_one(v, bx, by, wall_collider(WallSide::Top));
    let v2 = resolve_one(v1, bx, by, wall_collider(WallSide::Bottom));
    let v3 = resolve_one(v2, bx, by, wall_collider(WallSide::EnemyGoal));
    let v4 = resolve_one(v3, bx, by, wall_collider(WallSide::PlayerGoal));
    let v5 = resolve_one(v4, bx, by, player.spec_collider());
    resolve_one(v5, bx, by, enemy.spec_collider())
}

/// The squared speed magnitude of a velocity; reflections preserve it.
pub open spec fn speed_sq(v: (int, int)) -> int {
    v.0 * v.0 + v.1 * v.1
}

/// Resolve the ball's velocity against one collider.
fn resolve_against(ball: &mut Ball, c: &Collider)
    requires
        old(ball).wf(),
        old(ball).pos_ok(),
        c.wf(),
    ensures
        final(ball).x == old(ball).x,
        final(ball).y == old(ball).y,
        (final(ball).velocity.x as int, final(ball).velocity.y as int) == resolve_one(
            (old(ball).velocity.x as int, old(ball).velocity.y as int),
            old(ball).x as int,
            old(ball).y as int,
            *c,
        ),
        final(ball).wf(),
{
    let ball_box: Collider = ball.collider();
    match collide(&ball_box, c) {
        Option::None => {},
        Option::Some(Collision::Left) => {
            if ball.velocity.x > 0 {
                ball.velocity.x = -ball.velocity.x;
            }
        },
        Option::Some(Collision::Right) => {
            if ball.velocity.x < 0 {
                ball.velocity.x = -ball.velocity.x;
            }
        },
        Option::Some(Collision::Top) => {
            if ball.velocity.y < 0 {
                ball.velocity.y = -ball.velocity.y;
            }
        },
        Option::Some(Collision::Bottom) => {
            if ball.velocity.y > 0 {
                ball.velocity.y = -ball.velocity.y;
            }
        },
        Option::Some(Collision::Inside) => {},
    }
}

/// Re-evaluate the overlap of the ball with every collider and reflect
/// the ball's velocity off each penetrated face it is still moving into.
/// The ball's position is untouched and its speed magnitude is
/// preserved.
pub fn check_ball_bounce_collisions(ball: &mut Ball, player: &Paddle, enemy: &Paddle)
    requires
        old(ball).wf(),
        old(ball).pos_ok(),
        player.pos_ok(),
        enemy.pos_ok(),
    ensures
        final(ball).x == old(ball).x,
        final(ball).y == old(ball).y,
        (final(ball).velocity.x as int, final(ball).velocity.y as int) == resolve_all(
            (old(ball).velocity.x as int, old(ball).velocity.y as int),
            old(ball).x as int,
            old(ball).y as int,
            *player,
            *enemy,
        ),
        speed_sq((final(ball).velocity.x as int, final(ball).velocity.y as int)) == speed_sq(
            (old(ball).velocity.x as int, old(ball).velocity.y as int),
        ),
        final(ball).wf(),
{
    let top: Walls = Walls::new(WallSide::Top);
    resolve_against(ball, &top.collider);
    let bottom: Walls = Walls::new(WallSide::Bottom);
    resolve_against(ball, &bottom.collider);
    let enemy_goal: Walls = Walls::new(WallSide::EnemyGoal);
    resolve_against(ball, &enemy_goal.collider);
    let player_goal: Walls = Walls::new(WallSide::PlayerGoal);
    resolve_against(ball, &player_goal.collider);
    resolve_against(ball, &player.collider());
    resolve_against(ball, &enemy.collider());
    proof {
        let v0 = (old(ball).velocity.x as int, old(ball).velocity.y as int);
        let bx = old(ball).x as int;
        let by = old(ball).y as int;
        lemma_resolve_one_preserves_speed(v0, bx, by, wall_collider(WallSide::Top));
        let v1 = resolve_one(v0, bx, by, wall_collider(WallSide::Top));
        lemma_resolve_one_preserves_speed(v1, bx, by, wall_collider(WallSide::Bottom));
        let v2 = resolve_one(v1, bx, by, wall_collider(WallSide::Bottom));
        lemma_resolve_one_preserves_speed(v2, bx, by, wall_collider(WallSide::EnemyGoal));
        let v3 = resolve_one(v2, bx, by, wall_collider(WallSide::EnemyGoal));
        lemma_resolve_one_preserves_speed(v3, bx, by, wall_collider(WallSide::PlayerGoal));
        let v4 = resolve_one(v3, bx, by, wall_collider(WallSide::PlayerGoal));
        lemma_resolve_one_preserves_speed(v4, bx, by, player.spec_collider());
        let v5 = resolve_one(v4, bx, by, player.spec_collider());
        lemma_resolve_one_preserves_speed(v5, bx, by, enemy.spec_collider());
    }
}

/// One resolution step never changes the speed magnitude: it flips the
/// sign of at most one component and never scales.
pub proof fn lemma_resolve_one_preserves_speed(v: (int, int), bx: int, by: int, c: Collider)
    ensures
        speed_sq(resolve_one(v, bx, by, c)) == speed_sq(v),
{
    assert((-v.0) * (-v.0) == v.0 * v.0) by (nonlinear_arith);
    assert((-v.1) * (-v.1) == v.1 * v.1) by (nonlinear_arith);
}

/// The ball's velocity after any number of resolution steps, against any
/// colliders, at a fixed position.
pub open spec fn resolve_along(v: (int, int), bx: int, by: int, cs: Seq<Collider>) -> (int, int)
    decreases cs.len(),
{
    if cs.len() == 0 {
        v
    } else {
        resolve_along(resolve_one(v, bx, by, cs[0]), bx, by, cs.drop_first())
    }
}

/// Speed invariance under bouncing: the squared speed magnitude survives
/// any number of resolution steps.
pub proof fn lemma_bounces_preserve_speed(v: (int, int), bx: int, by: int, cs: Seq<Collider>)
    ensures
        speed_sq(resolve_along(v, bx, by, cs)) == speed_sq(v),
    decreases cs.len(),
{
    if cs.len() > 0 {
        lemma_resolve_one_preserves_speed(v, bx, by, cs[0]);
        lemma_bounces_preserve_speed(resolve_one(v, bx, by, cs[0]), bx, by, cs.drop_first());
    }
}

/// A ball overlapping a collider and moving into the penetrated face has
/// exactly that velocity component reversed by one resolution step.
pub proof fn lemma_moving_into_face_reflects(v: (int, int), bx: int, by: int, c: Collider)
    ensures
        ball_contact_at(bx, by, c) == Some(Collision::Left) && v.0 > 0 ==> resolve_one(
            v,
            bx,
            by,
            c,
        ) == (-v.0, v.1),
        ball_contact_at(bx, by, c) == Some(Collision::Right) && v.0 < 0 ==> resolve_one(
            v,
            bx,
            by,
            c,
        ) == (-v.0, v.1),
        ball_contact_at(bx, by, c) == Some(Collision::Top) && v.1 < 0 ==> resolve_one(
            v,
            bx,
            by,
            c,
        ) == (v.0, -v.1),
        ball_contact_at(bx, by, c) == Some(Collision::Bottom) && v.1 > 0 ==> resolve_one(
            v,
            bx,
            by,
            c,
        ) == (v.0, -v.1),
{
}

/// No double reflection: while the overlap persists unchanged, a second
/// resolution step is a no-op, because the reflected component now moves
/// away from the face.
pub proof fn lemma_resolve_one_idempotent(v: (int, int), bx: int, by: int, c: Collider)
    ensures
        resolve_one(resolve_one(v, bx, by, c), bx, by, c) == resolve_one(v, bx, by, c),
{
}

/// One reversal per contact episode: once a step has resolved the ball
/// against a collider, a later step at any position with the same
/// contact classification — the overlap persisting across ticks without
/// separation — changes nothing, because the reflected component
/// already moves away from the face.
pub proof fn lemma_no_double_reflection(
    v: (int, int),
    bx1: int,
    by1: int,
    bx2: int,
    by2: int,
    c: Collider,
)
    requires
        ball_contact_at(bx1, by1, c) == ball_contact_at(bx2, by2, c),
    ensures
        resolve_one(resolve_one(v, bx1, by1, c), bx2, by2, c) == resolve_one(v, bx1, by1, c),
{
}

/// Detection does not depend on the order the colliders are visited in:
/// any two duplicate-free event lists that report exactly this tick's
/// contacts hold the same events.
pub proof fn lemma_detection_order_independent(
    s1: Seq<CollisionEvent>,
    s2: Seq<CollisionEvent>,
    ball: Ball,
    player: Paddle,
    enemy: Paddle,
)
    requires
        forall|ev: CollisionEvent| s1.contains(ev) <==> event_happens(ball, player, enemy, ev),
        forall|ev: CollisionEvent| s2.contains(ev) <==> event_happens(ball, player, enemy, ev),
        s1.no_duplicates(),
        s2.no_duplicates(),
    ensures
        s1.to_multiset() == s2.to_multiset(),
{
    broadcast use vstd::seq_lib::group_to_multiset_ensures;
    broadcast use vstd::multiset::group_multiset_axioms;

    s1.lemma_multiset_has_no_duplicates();
    s2.lemma_multiset_has_no_duplicates();
    assert forall|ev: CollisionEvent| s1.to_multiset().count(ev) == s2.to_multiset().count(
        ev,
    ) by {
        if event_happens(ball, player, enemy, ev) {
            assert(s1.contains(ev));
            assert(s2.contains(ev));
        } else {
            assert(!s1.contains(ev));
            assert(!s2.contains(ev));
            assert(s1.to_multiset().count(ev) == 0);
            assert(s2.to_multiset().count(ev) == 0);
        }
    }
    assert(s1.to_multiset() =~= s2.to_multiset());
}

} // verus!
