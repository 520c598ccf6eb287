//! A small verified simulation engine for a single autonomous robot.
//!
//! The robot is governed by a finite state machine reacting to two boolean
//! sensor flags (obstacle and target detection) and an internal battery.
//! Each simulation tick re-evaluates the state, moves the robot toward its
//! navigation goal, and drains the battery.
//!
//! All quantities are fixed-point integers in tenths of a unit: battery runs
//! from 0 to 1000 (i.e. 0.0% to 100.0%), coordinates conventionally span
//! 0 to 1000 (0.0 to 100.0 world units), and time is measured in
//! milliseconds.

pub mod geometry;
pub mod laws;
mod random;
pub mod robot;
