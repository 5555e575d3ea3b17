//! The synchronisation engine: what a replica knows of its peers, the
//! requests it has in flight, and the handler that turns each input into a
//! new state and a sequence of effects for the host to carry out.

pub mod handle;
pub mod laws;
pub mod messages;
pub mod peers;
pub mod state;
