//! Flight dynamics of a spinning ball in air, on fixed-point arithmetic.
//!
//! The crate models drag, Magnus lift and seam-shifted-wake (SSW) forces and
//! advances a ball state in fixed millisecond sub-steps, each taking a
//! four-stage Runge-Kutta slope of the force model before gravity joins. All
//! quantities are scaled integers (see `fx`): every executable function
//! carries an exact contract relating its result to a specification-level
//! function, so the whole numeric pipeline is deterministic and verified.

pub mod ball_flight_state;
pub mod common;
pub mod config;
pub mod fx;
pub mod laws;
pub mod quat;
pub mod vec3;
