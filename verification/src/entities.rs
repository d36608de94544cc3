use vstd::prelude::*;

use crate::constants::{
    AI_PADDLE_X, BALL_HALF_SIZE, BALL_START_X, BALL_START_Y, BOTTOM_WALL,
    INITIAL_BALL_VELOCITY_X, INITIAL_BALL_VELOCITY_Y, LEFT_WALL, PADDLE_HALF_HEIGHT,
    PADDLE_HALF_WIDTH, PLAYER_PADDLE_X, POS_LIMIT, RIGHT_WALL, SIDE_WALL_HALF_HEIGHT,
    SPAN_WALL_HALF_WIDTH, TOP_WALL, VEL_LIMIT, WALL_HALF_THICKNESS, WALL_THICKNESS,
};
use crate::geometry::Collider;

verus! {

/// Which of the four arena walls an entity or an event refers to. The
/// goal walls close the arena on the sides the paddles defend: the human
/// player's goal is the right wall, the AI's the left wall.
#[derive(Clone, Copy, Debug, PartialEq, Eq, Structural)]
pub enum WallSide {
    Top,
    Bottom,
    PlayerGoal,
    EnemyGoal,
}

/// Who a paddle belongs to.
#[derive(Clone, Copy, Debug, PartialEq, Eq, Structural)]
pub enum Owner {
    Human,
    AI,
}

/// A velocity in world units per second.
#[derive(Clone, Copy, Debug, PartialEq, Eq, Structural)]
pub struct Velocity {
    pub x: i64,
    pub y: i64,
}

/// The ball: a square probe of fixed extent with a position and a
/// velocity.
#[derive(Clone, Copy, Debug, PartialEq, Eq, Structural)]
pub struct Ball {
    pub x: i64,
    pub y: i64,
    pub velocity: Velocity,
}

/// A paddle: fixed extent, fixed column, vertical position driven by its
/// controller every tick.
#[derive(Clone, Copy, Debug, PartialEq, Eq, Structural)]
pub struct Paddle {
    pub x: i64,
    pub y: i64,
    pub owner: Owner,
}

/// A wall entity: its side tag and the collider derived from the arena
/// bounds and the wall thickness.
#[derive(Clone, Copy, Debug, PartialEq, Eq, Structural)]
pub struct Walls {
    pub side: WallSide,
    pub collider: Collider,
}

/// The collider every wall side derives from the arena bounds.
pub open spec fn wall_collider(side: WallSide) -> Collider {
    match side {
        WallSide::Top => Collider {
            cx: 0,
            cy: TOP_WALL,
            hx: SPAN_WALL_HALF_WIDTH,
            hy: WALL_HALF_THICKNESS,
        },
        WallSide::Bottom => Collider {
            cx: 0,
            cy: BOTTOM_WALL,
            hx: SPAN_WALL_HALF_WIDTH,
            hy: WALL_HALF_THICKNESS,
        },
        WallSide::PlayerGoal => Collider {
            cx: RIGHT_WALL,
            cy: 0,
            hx: WALL_HALF_THICKNESS,
            hy: SIDE_WALL_HALF_HEIGHT,
        },
        WallSide::EnemyGoal => Collider {
            cx: LEFT_WALL,
            cy: 0,
            hx: WALL_HALF_THICKNESS,
            hy: SIDE_WALL_HALF_HEIGHT,
        },
    }
}

impl WallSide {
    pub open spec fn spec_position(self) -> (i64, i64) {
        match self {
            WallSide::EnemyGoal => (LEFT_WALL, 0),
            WallSide::PlayerGoal => (RIGHT_WALL, 0),
            WallSide::Bottom => (0, BOTTOM_WALL),
            WallSide::Top => (0, TOP_WALL),
        }
    }

    /// Center of this wall in the world.
    pub fn position(&self) -> (r: (i64, i64))
        ensures
            r == self.spec_position(),
    {
        match self {
            WallSide::EnemyGoal => (LEFT_WALL, 0),
            WallSide::PlayerGoal => (RIGHT_WALL, 0),
            WallSide::Bottom => (0, BOTTOM_WALL),
            WallSide::Top => (0, TOP_WALL),
        }
    }

    pub open spec fn spec_size(self) -> (i64, i64) {
        match self {
            WallSide::EnemyGoal | WallSide::PlayerGoal => (
                WALL_THICKNESS,
                (TOP_WALL - BOTTOM_WALL + WALL_THICKNESS) as i64,
            ),
            WallSide::Bottom | WallSide::Top => (
                (RIGHT_WALL - LEFT_WALL + WALL_THICKNESS) as i64,
                WALL_THICKNESS,
            ),
        }
    }

    /// Full extent of this wall: the goal walls span the arena height,
    /// the top and bottom walls the arena width, each overhanging by one
    /// thickness so the corners are closed.
    pub fn size(&self) -> (r: (i64, i64))
        ensures
            r == self.spec_size(),
    {
        let arena_height: i64 = TOP_WALL - BOTTOM_WALL;
        let arena_width: i64 = RIGHT_WALL - LEFT_WALL;
        // The arena would be degenerate if its bounds were ever reordered.
        assert(arena_height > 0);
        assert(arena_width > 0);

        match self {
            WallSide::EnemyGoal | WallSide::PlayerGoal => (
                WALL_THICKNESS,
                arena_height + WALL_THICKNESS,
            ),
            WallSide::Bottom | WallSide::Top => (arena_width + WALL_THICKNESS, WALL_THICKNESS),
        }
    }
}

/// The wall collider sits at the wall position with half the wall size as
/// its extent, and satisfies the collider invariant.
pub proof fn lemma_wall_collider_consistent(side: WallSide)
    ensures
        wall_collider(side).wf(),
        wall_collider(side).cx == side.spec_position().0,
        wall_collider(side).cy == side.spec_position().1,
        2 * wall_collider(side).hx == side.spec_size().0,
        2 * wall_collider(side).hy == side.spec_size().1,
{
}

impl Walls {
    /// Build the wall entity for one side of the arena.
    pub fn new(location: WallSide) -> (r: Walls)
        ensures
            r.side == location,
            r.collider == wall_collider(location),
            r.collider.wf(),
    {
        let collider: Collider = match location {
            WallSide::Top => Collider {
                cx: 0,
                cy: TOP_WALL,
                hx: SPAN_WALL_HALF_WIDTH,
                hy: WALL_HALF_THICKNESS,
            },
            WallSide::Bottom => Collider {
                cx: 0,
                cy: BOTTOM_WALL,
                hx: SPAN_WALL_HALF_WIDTH,
                hy: WALL_HALF_THICKNESS,
            },
            WallSide::PlayerGoal => Collider {
                cx: RIGHT_WALL,
                cy: 0,
                hx: WALL_HALF_THICKNESS,
                hy: SIDE_WALL_HALF_HEIGHT,
            },
            WallSide::EnemyGoal => Collider {
                cx: LEFT_WALL,
                cy: 0,
                hx: WALL_HALF_THICKNESS,
                hy: SIDE_WALL_HALF_HEIGHT,
            },
        };
        Walls { side: location, collider }
    }
}

impl Velocity {
    /// Both components small enough that scaling and negation stay inside
    /// i64.
    pub open spec fn wf(self) -> bool {
        &&& -VEL_LIMIT <= self.x <= VEL_LIMIT
        &&& -VEL_LIMIT <= self.y <= VEL_LIMIT
    }
}

impl Ball {
    pub open spec fn wf(self) -> bool {
        self.velocity.wf()
    }

    /// The position is inside the generous coordinate bounds, so the
    /// ball's collider arithmetic stays inside i64.
    pub open spec fn pos_ok(self) -> bool {
        &&& -POS_LIMIT <= self.x <= POS_LIMIT
        &&& -POS_LIMIT <= self.y <= POS_LIMIT
    }

    pub open spec fn spec_collider(self) -> Collider {
        Collider { cx: self.x, cy: self.y, hx: BALL_HALF_SIZE, hy: BALL_HALF_SIZE }
    }

    /// The ball's axis-aligned box.
    pub fn collider(&self) -> (r: Collider)
        ensures
            r == self.spec_collider(),
            self.pos_ok() ==> r.wf(),
    {
        Collider { cx: self.x, cy: self.y, hx: BALL_HALF_SIZE, hy: BALL_HALF_SIZE }
    }
}

/// The fixed state a ball is served with: the starting position and the
/// initial diagonal velocity.
pub open spec fn spec_spawn_ball() -> Ball {
    Ball {
        x: BALL_START_X,
        y: BALL_START_Y,
        velocity: Velocity { x: INITIAL_BALL_VELOCITY_X, y: INITIAL_BALL_VELOCITY_Y },
    }
}

/// A fresh ball at the fixed starting position with the fixed initial
/// direction and speed.
pub fn spawn_ball() -> (b: Ball)
    ensures
        b == spec_spawn_ball(),
        b.wf(),
        b.pos_ok(),
{
    Ball {
        x: BALL_START_X,
        y: BALL_START_Y,
        velocity: Velocity { x: INITIAL_BALL_VELOCITY_X, y: INITIAL_BALL_VELOCITY_Y },
    }
}

impl Paddle {
    pub open spec fn pos_ok(self) -> bool {
        &&& -POS_LIMIT <= self.x <= POS_LIMIT
        &&& -POS_LIMIT <= self.y <= POS_LIMIT
    }

    /// The column each owner's paddle is fixed to.
    pub open spec fn spec_home_x(owner: Owner) -> i64 {
        match owner {
            Owner::Human => PLAYER_PADDLE_X,
            Owner::AI => AI_PADDLE_X,
        }
    }

    /// A paddle for `owner`, centered vertically in its fixed column.
    pub fn new(owner: Owner) -> (r: Paddle)
        ensures
            r.owner == owner,
            r.x == Paddle::spec_home_x(owner),
            r.y == 0,
            r.pos_ok(),
    {
        let x: i64 = match owner {
            Owner::Human => PLAYER_PADDLE_X,
            Owner::AI => AI_PADDLE_X,
        };
        Paddle { x, y: 0, owner }
    }

    pub open spec fn spec_collider(self) -> Collider {
        Collider { cx: self.x, cy: self.y, hx: PADDLE_HALF_WIDTH, hy: PADDLE_HALF_HEIGHT }
    }

    /// The paddle's axis-aligned box.
    pub fn collider(&self) -> (r: Collider)
        ensures
            r == self.spec_collider(),
            self.pos_ok() ==> r.wf(),
    {
        Collider { cx: self.x, cy: self.y, hx: PADDLE_HALF_WIDTH, hy: PADDLE_HALF_HEIGHT }
    }
}

} // verus!
