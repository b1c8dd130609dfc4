//! Gravity and velocity integration. Acceleration accumulates while a body
//! is airborne, is folded into the velocity once per frame, moves the body,
//! and is then cleared; falling speed is capped.

use vstd::prelude::*;

use crate::utils::{lemma_mul_le, Vec2i, SPEED_UNITS_PER_PIXEL_PER_SECOND, WORLD_LIMIT};

verus! {

/// Downward acceleration while airborne, in acceleration units (numerically
/// pixels per square second).
pub const GRAVITY_STRENGTH: i64 = 980;

/// Fastest allowed fall, in velocity units (one thousand units to the pixel
/// per second).
pub const MAX_FALL_SPEED: i64 = -1000 * SPEED_UNITS_PER_PIXEL_PER_SECOND;

pub const DEFAULT_GRAVITY_SCALE: i64 = 1;

/// Longest frame the integrator accepts, in milliseconds.
pub const MAX_FRAME_MS: i64 = 1000;

/// Bound on velocity and acceleration components the integrator accepts,
/// so that the products with a frame length fit comfortably in 64 bits.
pub const MOTION_LIMIT: i64 = WORLD_LIMIT;

/// Motion state of one body.
#[derive(Clone, Copy, PartialEq, Eq, Structural, Debug)]
pub struct Physics {
    pub velocity: Vec2i,
    pub acceleration: Vec2i,
    pub on_ground: bool,
    pub gravity_scale: i64,
}

impl Physics {
    /// Velocity and acceleration components within the motion bound, and a
    /// plain nonnegative gravity scale.
    pub open spec fn wf(self) -> bool {
        &&& self.velocity.wf()
        &&& self.acceleration.wf()
        &&& 0 <= self.gravity_scale <= 1000
    }
}

impl Default for Physics {
    /// A body at rest in the air under normal gravity.
    fn default() -> (r: Self)
        ensures
            r == (Physics {
                velocity: Vec2i { x: 0, y: 0 },
                acceleration: Vec2i { x: 0, y: 0 },
                on_ground: false,
                gravity_scale: DEFAULT_GRAVITY_SCALE,
            }),
    {
        Self {
            velocity: Vec2i { x: 0, y: 0 },
            acceleration: Vec2i { x: 0, y: 0 },
            on_ground: false,
            gravity_scale: DEFAULT_GRAVITY_SCALE,
        }
    }
}

/// Global gravity configuration.
#[derive(Clone, Copy, PartialEq, Eq, Structural, Debug)]
pub struct GravitySettings {
    pub strength: i64,
}

impl Default for GravitySettings {
    fn default() -> (r: Self)
        ensures
            r == (GravitySettings { strength: GRAVITY_STRENGTH }),
    {
        Self { strength: GRAVITY_STRENGTH }
    }
}

/// Add one frame's worth of gravity to an airborne body's acceleration; a
/// grounded body is left alone.
pub fn apply_gravity(physics: &mut Physics, strength: i64)
    requires
        old(physics).wf(),
        0 <= strength <= 1_000_000,
    ensures
        !old(physics).on_ground ==> *final(physics) == (Physics {
            acceleration: Vec2i {
                x: old(physics).acceleration.x,
                y: (old(physics).acceleration.y - strength * old(physics).gravity_scale) as i64,
            },
            ..*old(physics)
        }),
        old(physics).on_ground ==> *final(physics) == *old(physics),
{
    if !physics.on_ground {
        proof {
            lemma_mul_le(strength as int, physics.gravity_scale as int, 1_000_000, 1000);
        }
        let pull: i64 = strength * physics.gravity_scale;
        physics.acceleration.y = physics.acceleration.y - pull;
    }
}

/// Fold the accumulated acceleration into the velocity, cap the fall speed,
/// move the position by one frame of the new velocity, and clear the
/// acceleration.
pub fn apply_physics(position: &mut Vec2i, physics: &mut Physics, delta_ms: i64)
    requires
        old(physics).wf(),
        old(position).wf(),
        0 <= delta_ms <= MAX_FRAME_MS,
    ensures
        ({
            let vx = old(physics).velocity.x + old(physics).acceleration.x * delta_ms;
            let vy_raw = old(physics).velocity.y + old(physics).acceleration.y * delta_ms;
            let vy = if vy_raw < MAX_FALL_SPEED {
                MAX_FALL_SPEED as int
            } else {
                vy_raw
            };
            &&& final(physics).velocity.x == vx
            &&& final(physics).velocity.y == vy
            &&& final(physics).acceleration == (Vec2i { x: 0, y: 0 })
            &&& final(physics).on_ground == old(physics).on_ground
            &&& final(physics).gravity_scale == old(physics).gravity_scale
            &&& final(position).x == old(position).x + vx * delta_ms
            &&& final(position).y == old(position).y + vy * delta_ms
        }),
{
    proof {
        lemma_mul_le(
            physics.acceleration.x as int,
            delta_ms as int,
            MOTION_LIMIT as int,
            MAX_FRAME_MS as int,
        );
        lemma_mul_le(
            physics.acceleration.y as int,
            delta_ms as int,
            MOTION_LIMIT as int,
            MAX_FRAME_MS as int,
        );
    }
    let vx: i64 = ((physics.velocity.x as i128) + (physics.acceleration.x as i128) * (
    delta_ms as i128)) as i64;
    let vy_raw: i64 = ((physics.velocity.y as i128) + (physics.acceleration.y as i128) * (
    delta_ms as i128)) as i64;
    let vy: i64 = if vy_raw < MAX_FALL_SPEED {
        MAX_FALL_SPEED
    } else {
        vy_raw
    };
    proof {
        lemma_mul_le(
            vx as int,
            delta_ms as int,
            MOTION_LIMIT as int + MOTION_LIMIT as int * MAX_FRAME_MS as int,
            MAX_FRAME_MS as int,
        );
        lemma_mul_le(
            vy as int,
            delta_ms as int,
            MOTION_LIMIT as int + MOTION_LIMIT as int * MAX_FRAME_MS as int,
            MAX_FRAME_MS as int,
        );
    }
    position.x = ((position.x as i128) + (vx as i128) * (delta_ms as i128)) as i64;
    position.y = ((position.y as i128) + (vy as i128) * (delta_ms as i128)) as i64;
    physics.velocity.x = vx;
    physics.velocity.y = vy;
    physics.acceleration.x = 0;
    physics.acceleration.y = 0;
}

} // verus!
