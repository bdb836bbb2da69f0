//! A streaming chat protocol adapter: the outbound input events of one chat
//! turn, the decoding of inbound service events into typed outputs, and the
//! pull-based cursor that turns the inbound stream into a sequence of outputs
//! ending in exhaustion or failure.

pub mod applications;
pub mod decoder;
pub mod errors;
pub mod events;
pub mod iterator;
pub mod model;
pub mod output;
pub mod recorded;
pub mod session;
