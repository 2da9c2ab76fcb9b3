//! A deterministic, tick-based character movement simulation.
//!
//! All quantities are fixed-point integers: lengths in millimetres,
//! velocities in millimetres per second, durations in milliseconds and
//! directions in thousandths of a unit.
pub mod action;
pub mod climb;
pub mod fixed;
pub mod handlers;
pub mod laws;
pub mod movement;
pub mod physics;
pub mod settings;
pub mod state;
pub mod tick;
