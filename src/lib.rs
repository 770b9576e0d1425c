//! A CPU-time watchdog: the decisions that bound how much processor time a
//! computation may spend before it is cancelled.

pub mod timer;
pub mod watchdog;
pub mod clock;
