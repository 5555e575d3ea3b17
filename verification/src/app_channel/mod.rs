//! The bridge between consensus and the application: the messages that
//! cross it and the decisions it takes for each of them. The channels
//! themselves belong to the host, which carries out what is decided here.

pub mod connector;
pub mod msgs;
