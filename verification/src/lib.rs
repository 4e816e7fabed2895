//! Verified core of a sensor-telemetry acquisition-and-delivery pipeline.
//!
//! The library holds the algorithmic heart of a device that periodically
//! samples environmental sensors, assembles timestamped telemetry batches,
//! and delivers them to a remote collector over an intermittently available
//! link: the gain auto-ranging search for the optical sensor, the assembly
//! of measurement batches, the bounded FIFO retry buffer with
//! requeue-on-failure, and the jittered scheduling of delivery cycles.
//! Bus transactions, network I/O and floating-point post-processing live
//! outside the library; measurement values travel through it as their
//! IEEE 754 bit patterns.

pub mod autorange;
pub mod gain;
pub mod retry;
pub mod ring;
pub mod samples;
pub mod schedule;
pub mod telemetry;
