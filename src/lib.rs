//! Protocol engine for exchanging encrypted receipts between organisations
//! through a registry: envelope encryption, request signing, registry
//! requests and the sender and receiver decision flows.
pub mod auth;
pub mod codec;
pub mod envelope;
pub mod misuse;
pub mod model;
pub mod receiver;
pub mod registry;
pub mod sender;
pub mod service;
