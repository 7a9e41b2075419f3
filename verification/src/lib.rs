//! Verified core of a small telemetry node.
//!
//! The node samples an analog signal, reduces each window of raw samples to
//! one amplitude reading, smooths the readings with an exponential moving
//! average, renders the smoothed value as decimal text, and decides — through
//! an explicit supervisor state machine — when to connect, poll, publish and
//! when to give up and restart the device.
//!
//! All numeric state is kept in fixed-point micro-units (one unit of signal
//! equals 1_000_000 micro-units), so every computation here is exact integer
//! arithmetic with proved bounds.
pub mod accumulator;
pub mod config;
pub mod connectivity;
pub mod payload;
pub mod smoother;
pub mod supervisor;
