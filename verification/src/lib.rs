//! Humanoid arm inverse kinematics and skeleton retargeting, on fixed-point
//! geometry.
//!
//! All scalars are fixed-point values: an `i64` counting millionths of a unit
//! (micro-units for distances, micro-radians for angles).  The crate provides
//! the vector and quaternion utilities, the two-bone analytic IK solver with
//! twist distribution, the shoulder pre-rotation stage, the twist-overflow
//! hysteresis state machine, and the bind-pose retargeting math.  A host
//! application owns the scene graph and converts its floating-point transforms
//! to and from these fixed-point values at the boundary.

pub mod bind;
pub mod fixed;
pub mod limb;
pub mod mat3;
pub mod profile;
pub mod quat;
pub mod retarget;
pub mod solver;
pub mod spring;
pub mod transform;
pub mod trig;
pub mod twist;
pub mod vec3;
