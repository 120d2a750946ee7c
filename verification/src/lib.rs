//! Restart-safe pipeline stages for a supervised actor runtime.
//!
//! Every stage follows the same discipline: look at an input without
//! removing it, compute, offer the result downstream, and only once the
//! offer is accepted consume the input and advance the persistent counters.
//! A message that keeps a stage from making progress is set aside after a
//! fixed number of looks.

pub mod actor;
pub mod model;
pub mod protocol;
pub mod runtime;
