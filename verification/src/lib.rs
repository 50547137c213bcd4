//! The simulation core of a 2D platformer.
//!
//! A tick of the game runs these steps, in this order: player control,
//! gravity, speed limits, movement, camera, collision detection, speed
//! decrease. Each step is a function of plain values, so that any engine
//! can drive it: the engine gathers the values from its entities, calls the
//! step, and stores what comes back.
//!
//! All quantities are fixed-point numbers (see [`fixed`]), so that a tick
//! gives the same result on every machine. Every function is total: none
//! panics, and arithmetic saturates at the ends of the range.

pub mod components;
pub mod fixed;
pub mod geo;
pub mod settings;
pub mod systems;
