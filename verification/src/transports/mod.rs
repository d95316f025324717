//! The transports' own logic: the state of a request in flight, and the
//! matching of incoming messages to what waits for them.

pub mod shared;
pub mod tcp;
