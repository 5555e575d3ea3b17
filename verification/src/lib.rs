//! Catch-up machinery for a Byzantine-fault-tolerant replica: peer identities,
//! the synchronisation engine that fetches decided values and vote sets from
//! peers, and the decisions of the bridge between consensus and the application.

pub mod app_channel;
pub mod consensus;
pub mod core_types;
pub mod multihash;
pub mod peer;
pub mod sync;
