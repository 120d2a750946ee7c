//! The four stage roles of the pipeline.

pub mod generator;
pub mod heartbeat;
pub mod logger;
pub mod worker;
