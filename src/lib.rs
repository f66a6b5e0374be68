//! Turns multi-touch trackpad contact frames into directional swipe events.
//!
//! Positions, pressures and thresholds are fixed-point integers: one unit is a
//! millionth of the normalized trackpad dimension (see [`config::SCALE`]).
pub mod config;
pub mod gesture;
pub mod touch;
pub mod tracker;
