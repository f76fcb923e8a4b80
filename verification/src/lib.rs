//! Device-state orchestration for a temporary audio re-route.
//!
//! The library owns the logic of a small program that re-points the
//! platform's default audio device at a chosen capture endpoint, supervises
//! an external pitch-shifting pipeline between two endpoints, and restores
//! the original default when the pipeline ends or a signal interrupts it.
//! Platform queries, file reading, process handling and signal delivery are
//! performed by the surrounding binary; this crate holds and verifies every
//! decision made on the values those produce.

pub mod coordinator;
pub mod device;
pub mod platform;
pub mod routing;
pub mod run;
