//! Core logic of a 2D side-scrolling action game: character animation state
//! machines, combat hitboxes, damage resolution, gravity physics, ground
//! collision and background recycling.
//!
//! All geometry is integer-valued. Positions and sizes are measured in
//! subpixels (1_000_000 subpixels to the pixel), time in whole milliseconds,
//! velocities in subpixels per millisecond (so one pixel per second is 1_000
//! velocity units) and accelerations in subpixels per square millisecond (so
//! one pixel per square second is exactly one acceleration unit). With these
//! units every physics update is a plain integer multiplication. Scale
//! factors and ratios are carried in thousandths (per-mille).

pub mod animations;
pub mod enemy;
pub mod gamestate;
pub mod ground;
pub mod hitbox;
pub mod parallax;
pub mod physics;
pub mod player;
pub mod resolution;
pub mod timer;
pub mod utils;
