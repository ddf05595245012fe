//! Core of a relay node for a decentralized message-relay network: content
//! addressed messages, topic routing to locally attached subscribers, the
//! gossip wire codec and the client request protocol.

pub mod bus;
pub mod network;
pub mod primitives;
pub mod rpc;
pub mod storage;
