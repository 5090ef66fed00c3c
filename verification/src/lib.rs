//! Decentralized-identifier messaging: the wire types shared by clients and
//! homeservers, the homeserver's per-user message queues, the client-side
//! request construction, and `did:key` identifiers.

pub mod common;
pub mod str_map;
pub mod server;
pub mod client;
pub mod direct_message;
pub mod client_direct_message_sdk;
pub mod did_integrity;
