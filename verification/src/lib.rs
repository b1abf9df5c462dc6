//! A power-telemetry engine for a platform with a processing-system (PS) and a
//! programmable-logic (PL) power domain.
//!
//! The engine keeps a registry of power sensors, folds one reading per sensor
//! per tick into a latest-data snapshot and into running statistics
//! (min/max/avg/sum/count) per sensor and per aggregate scope, and answers
//! synchronous queries. Discovery of sensors and the periodic tick driver are
//! platform concerns and live outside this crate; they hand the engine plain
//! values.
//!
//! All electrical quantities are fixed-point integers in micro-units:
//! microvolts, microamperes and microwatts.

pub mod aggregate;
pub mod errors;
pub mod monitor;
pub mod sensor;
pub mod stats;
