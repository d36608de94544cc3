use vstd::prelude::*;

verus! {

// All lengths are in world units (with the default 2D camera they map 1:1
// to screen pixels), speeds are in world units per second, and times are
// in milliseconds.

// Arena bounds: x coordinates of the side walls and y coordinates of the
// top and bottom walls, measured at the wall center lines.
pub const LEFT_WALL: i64 = -450;

pub const RIGHT_WALL: i64 = 450;

pub const BOTTOM_WALL: i64 = -300;

pub const TOP_WALL: i64 = 300;

pub const WALL_THICKNESS: i64 = 10;

/// Half of WALL_THICKNESS.
pub const WALL_HALF_THICKNESS: i64 = 5;

/// Half height of the two goal walls, (TOP_WALL - BOTTOM_WALL + WALL_THICKNESS) / 2:
/// they overhang the arena by a half thickness at either end so the
/// corners are closed.
pub const SIDE_WALL_HALF_HEIGHT: i64 = 305;

/// Half width of the top and bottom walls, (RIGHT_WALL - LEFT_WALL + WALL_THICKNESS) / 2,
/// with the same overhang.
pub const SPAN_WALL_HALF_WIDTH: i64 = 455;

pub const PADDLE_HALF_WIDTH: i64 = 10;

pub const PADDLE_HALF_HEIGHT: i64 = 60;

pub const GAP_BETWEEN_PADDLE_AND_WALL: i64 = 60;

pub const PADDLE_SPEED: i64 = 500;

/// How close a paddle can get to the wall.
pub const PADDLE_PADDING: i64 = 10;

/// Highest paddle center allowed: the inner face of the top wall minus a
/// half paddle height and the padding.
pub const PADDLE_TOP_BOUND: i64 = TOP_WALL - WALL_HALF_THICKNESS - PADDLE_HALF_HEIGHT
    - PADDLE_PADDING;

pub const PADDLE_BOTTOM_BOUND: i64 = BOTTOM_WALL + WALL_HALF_THICKNESS + PADDLE_HALF_HEIGHT
    + PADDLE_PADDING;

/// Fixed x position of the human paddle, near the right wall.
pub const PLAYER_PADDLE_X: i64 = RIGHT_WALL - GAP_BETWEEN_PADDLE_AND_WALL;

/// Fixed x position of the AI paddle, near the left wall.
pub const AI_PADDLE_X: i64 = LEFT_WALL + GAP_BETWEEN_PADDLE_AND_WALL;

pub const MAX_AI_PADDLE_SPEED: i64 = 500;

pub const BALL_START_X: i64 = -50;

pub const BALL_START_Y: i64 = 0;

pub const BALL_HALF_SIZE: i64 = 15;

// The ball is served on the down-right diagonal at a fixed speed of about
// 400 units per second: each component is 400 / sqrt(2), rounded.
pub const INITIAL_BALL_VELOCITY_X: i64 = 283;

pub const INITIAL_BALL_VELOCITY_Y: i64 = -283;

/// Minimum interval between two accepted sound-cue triggers.
pub const DEBOUNCE_WINDOW_MS: i64 = 50;

/// Length of the fixed ordered list of collision cues the host provides.
pub const NUM_SOUND_CUES: usize = 2;

// Generous bounds on coordinates, half extents, velocities and time steps.
// They exist only so that every product and sum below stays inside i64;
// gameplay values are many orders of magnitude smaller.
pub const POS_LIMIT: i64 = 1_000_000_000_000;

pub const SIZE_LIMIT: i64 = 1_000_000_000;

pub const VEL_LIMIT: i64 = 1_000_000;

pub const DT_LIMIT_MS: i64 = 1_000_000;

/// Largest displacement one step can produce: VEL_LIMIT * DT_LIMIT_MS / 1000.
pub const STEP_LIMIT: i64 = 1_000_000_000;

} // verus!
