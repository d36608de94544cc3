use vstd::prelude::*;

use crate::constants::{POS_LIMIT, SIZE_LIMIT};

verus! {

/// An axis-aligned box given by its center and its half extent on each
/// axis. Walls and paddles expose one of these, and the ball is the sole
/// moving probe tested against them.
#[derive(Clone, Copy, Debug, PartialEq, Eq, Structural)]
pub struct Collider {
    pub cx: i64,
    pub cy: i64,
    pub hx: i64,
    pub hy: i64,
}

/// Which face of the tested box the probe box penetrated most shallowly.
/// `Inside` covers full containment and exact ties, and produces no
/// reflection axis.
#[derive(Clone, Copy, Debug, PartialEq, Eq, Structural)]
pub enum Collision {
    Left,
    Right,
    Top,
    Bottom,
    Inside,
}

impl Collider {
    /// Half extents are strictly positive; centers and half extents are
    /// small enough that all overlap arithmetic stays inside i64.
    pub open spec fn wf(self) -> bool {
        &&& 0 < self.hx <= SIZE_LIMIT
        &&& 0 < self.hy <= SIZE_LIMIT
        &&& -POS_LIMIT <= self.cx <= POS_LIMIT
        &&& -POS_LIMIT <= self.cy <= POS_LIMIT
    }
}

/// Strict overlap of two boxes given by center and half extent: touching
/// edges do not count as contact.
pub open spec fn overlaps_at(
    ax: int,
    ay: int,
    ahx: int,
    ahy: int,
    bx: int,
    by: int,
    bhx: int,
    bhy: int,
) -> bool {
    &&& ax - ahx < bx + bhx
    &&& ax + ahx > bx - bhx
    &&& ay - ahy < by + bhy
    &&& ay + ahy > by - bhy
}

pub open spec fn overlaps(a: Collider, b: Collider) -> bool {
    overlaps_at(
        a.cx as int,
        a.cy as int,
        a.hx as int,
        a.hy as int,
        b.cx as int,
        b.cy as int,
        b.hx as int,
        b.hy as int,
    )
}

/// Horizontal face of `b` that the probe straddles, with its penetration
/// depth: `Left` when the probe sticks out past `b`'s left edge, `Right`
/// past its right edge, `None` when the probe spans `b` or lies inside it
/// on this axis.
pub open spec fn x_probe_at(ax: int, ahx: int, bx: int, bhx: int) -> Option<(Collision, int)> {
    let a_min = ax - ahx;
    let a_max = ax + ahx;
    let b_min = bx - bhx;
    let b_max = bx + bhx;
    if a_min < b_min && a_max > b_min && a_max < b_max {
        Some((Collision::Left, a_max - b_min))
    } else if a_min > b_min && a_min < b_max && a_max > b_max {
        Some((Collision::Right, b_max - a_min))
    } else {
        None
    }
}

/// Vertical face of `b` that the probe straddles, with its penetration
/// depth.
pub open spec fn y_probe_at(ay: int, ahy: int, by: int, bhy: int) -> Option<(Collision, int)> {
    let a_min = ay - ahy;
    let a_max = ay + ahy;
    let b_min = by - bhy;
    let b_max = by + bhy;
    if a_min < b_min && a_max > b_min && a_max < b_max {
        Some((Collision::Bottom, a_max - b_min))
    } else if a_min > b_min && a_min < b_max && a_max > b_max {
        Some((Collision::Top, b_max - a_min))
    } else {
        None
    }
}

/// Face classification of an established overlap: the axis with the
/// shallower penetration wins, an exact tie or containment on both axes
/// is `Inside`.
pub open spec fn classify_at(
    ax: int,
    ay: int,
    ahx: int,
    ahy: int,
    bx: int,
    by: int,
    bhx: int,
    bhy: int,
) -> Collision {
    match (x_probe_at(ax, ahx, bx, bhx), y_probe_at(ay, ahy, by, bhy)) {
        (Option::None, Option::None) => Collision::Inside,
        (Option::Some(xp), Option::None) => xp.0,
        (Option::None, Option::Some(yp)) => yp.0,
        (Option::Some(xp), Option::Some(yp)) => if yp.1 < xp.1 {
            yp.0
        } else if xp.1 < yp.1 {
            xp.0
        } else {
            Collision::Inside
        },
    }
}

/// Full contact test: `None` without overlap, otherwise the classified
/// face.
pub open spec fn collide_at(
    ax: int,
    ay: int,
    ahx: int,
    ahy: int,
    bx: int,
    by: int,
    bhx: int,
    bhy: int,
) -> Option<Collision> {
    if overlaps_at(ax, ay, ahx, ahy, bx, by, bhx, bhy) {
        Some(classify_at(ax, ay, ahx, ahy, bx, by, bhx, bhy))
    } else {
        None
    }
}

pub open spec fn spec_collide(a: Collider, b: Collider) -> Option<Collision> {
    collide_at(
        a.cx as int,
        a.cy as int,
        a.hx as int,
        a.hy as int,
        b.cx as int,
        b.cy as int,
        b.hx as int,
        b.hy as int,
    )
}

/// AABB contact test between the probe box `a` (the ball) and a collider
/// `b`, reporting which face of `b` was penetrated most shallowly.
pub fn collide(a: &Collider, b: &Collider) -> (r: Option<Collision>)
    requires
        a.wf(),
        b.wf(),
    ensures
        r == spec_collide(*a, *b),
{
    let a_min_x: i64 = a.cx - a.hx;
    let a_max_x: i64 = a.cx + a.hx;
    let a_min_y: i64 = a.cy - a.hy;
    let a_max_y: i64 = a.cy + a.hy;
    let b_min_x: i64 = b.cx - b.hx;
    let b_max_x: i64 = b.cx + b.hx;
    let b_min_y: i64 = b.cy - b.hy;
    let b_max_y: i64 = b.cy + b.hy;

    if !(a_min_x < b_max_x && a_max_x > b_min_x && a_min_y < b_max_y && a_max_y > b_min_y) {
        return None;
    }

    let x_probe: Option<(Collision, i64)> = if a_min_x < b_min_x && a_max_x > b_min_x && a_max_x
        < b_max_x {
        Some((Collision::Left, a_max_x - b_min_x))
    } else if a_min_x > b_min_x && a_min_x < b_max_x && a_max_x > b_max_x {
        Some((Collision::Right, b_max_x - a_min_x))
    } else {
        None
    };

    let y_probe: Option<(Collision, i64)> = if a_min_y < b_min_y && a_max_y > b_min_y && a_max_y
        < b_max_y {
        Some((Collision::Bottom, a_max_y - b_min_y))
    } else if a_min_y > b_min_y && a_min_y < b_max_y && a_max_y > b_max_y {
        Some((Collision::Top, b_max_y - a_min_y))
    } else {
        None
    };

    match (x_probe, y_probe) {
        (Option::None, Option::None) => Some(Collision::Inside),
        (Option::Some((xc, _)), Option::None) => Some(xc),
        (Option::None, Option::Some((yc, _))) => Some(yc),
        (Option::Some((xc, xd)), Option::Some((yc, yd))) => if yd < xd {
            Some(yc)
        } else if xd < yd {
            Some(xc)
        } else {
            Some(Collision::Inside)
        },
    }
}

pub open spec fn spec_clamp(x: int, lo: int, hi: int) -> int {
    if x < lo {
        lo
    } else if x > hi {
        hi
    } else {
        x
    }
}

/// Clamp `x` into the closed range `[lo, hi]`.
pub fn clamp(x: i64, lo: i64, hi: i64) -> (r: i64)
    requires
        lo <= hi,
    ensures
        r as int == spec_clamp(x as int, lo as int, hi as int),
        lo <= r <= hi,
{
    if x < lo {
        lo
    } else if x > hi {
        hi
    } else {
        x
    }
}

/// Clamping always lands in the range, and clamping an already-clamped
/// value is a no-op.
pub proof fn lemma_clamp_idempotent(x: int, lo: int, hi: int)
    requires
        lo <= hi,
    ensures
        lo <= spec_clamp(x, lo, hi) <= hi,
        spec_clamp(spec_clamp(x, lo, hi), lo, hi) == spec_clamp(x, lo, hi),
        lo <= x <= hi ==> spec_clamp(x, lo, hi) == x,
{
}

} // verus!
