//! Follow-the-leader chain solving and outline planning for a swimming fish.
//!
//! Angles are fixed-point integers (see [`angle`]); positions and trigonometry
//! belong to the host, which measures directions and places joints.
pub mod angle;
pub mod chain;
pub mod outline;
pub mod wander;
