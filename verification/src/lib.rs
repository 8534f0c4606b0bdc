//! A minimal real-time 2D engine core: frame-accurate keyboard and pointer
//! input tracking, a texture-atlas map, a sprite batch renderer with camera
//! and depth handling, and a frame driver.
//!
//! All geometry and texture coordinates are exact rationals, so every batch,
//! camera and atlas computation is stated and checked precisely; a host layer
//! converts them to floating point at the GPU boundary.
use vstd::prelude::*;

pub mod atlas;
pub mod driver;
pub mod geom;
pub mod key;
pub mod key_codes;
pub mod mouse;
pub mod rational;
pub mod renderer;
pub mod viewport;

pub use rational::Rat;
pub use rational::RatV;
