//! A model of what the stages see of their channels, and the laws that
//! the stage decisions obey in it: what a confirmed send, a refused send
//! and a restart in mid-round each do to the messages in flight.

pub mod join;
pub mod lane;
pub mod shutdown;
pub mod sink;
pub mod source;
