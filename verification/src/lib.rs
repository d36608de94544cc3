//! Fixed-timestep simulation core of a two-paddle ball-and-wall arena:
//! paddle motion (human input and a speed-capped AI tracker), ball
//! kinematics, axis-aligned collision detection and resolution,
//! event-driven scoring with round reset, and a debounced collision-sound
//! trigger. All geometry and time is integral: positions and velocities
//! are world units and units per second, time steps are milliseconds.

pub mod constants;
pub mod geometry;
pub mod collision;
pub mod entities;
pub mod game;
pub mod kinematics;
pub mod paddles;
pub mod scoring;
pub mod sound;
