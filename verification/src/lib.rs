//! A node of a self-organizing peer-to-peer overlay network that stores
//! immutable content-addressed blobs. The crate covers the node lifecycle
//! with its join, relocation and bounce handling, the elder-versus-adult
//! duty classification of inbound messages, the section key chain and the
//! threshold-signature aggregator, the prefix map over the address space,
//! and the self-encrypting blob store with its deterministic addresses.

#![verifier::loop_isolation(false)]

pub mod aggregator;
pub mod approved_peer;
pub mod blob;
pub mod bls;
pub mod chain;
pub mod chunk_store;
pub mod client;
pub mod client_messaging;
pub mod data_store;
pub mod event_mapping;
pub mod laws;
pub mod msg_analysis;
pub mod name;
pub mod node_ops;
pub mod prefix_map;
pub mod routing_msgs;
pub mod seed;
pub mod types;
