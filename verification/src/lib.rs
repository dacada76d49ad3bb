//! The network behaviour of a peer-to-peer node.
//!
//! The node speaks three protocols over libp2p: gossip, request/response and
//! identify. This crate holds the behaviour that joins them: what it queues,
//! what it answers on the spot, what it shows to the application, what it
//! sets aside for the peer manager, and in which order a pass of the swarm
//! drains all of it.
//!
//! The behaviour does no input or output. The host polls the gossip engine,
//! the identify behaviour and the peer manager, hands the behaviour what
//! came of it, and carries out what the behaviour returns.

pub mod behaviour;
pub mod gossip;
pub mod identify;
pub mod peer_manager;
pub mod rpc;
pub mod seen_cache;
pub mod service;
pub mod swarm;
pub mod types;
