//! Verified core of an interactive console that migrates objects in a cloud
//! object store between storage tiers.
//!
//! The library holds the selection model, the mask predicates, the policy
//! store, the restore-state decoder, the interaction state machine, the
//! migration orchestrator and the error classifier. Terminal rendering and
//! the network calls to the storage backend live outside the library and
//! exchange plain values with it.

pub mod app;
pub mod decoder;
pub mod errors;
pub mod events;
pub mod listing;
pub mod mask;
pub mod models;
pub mod orchestrator;
pub mod policy;
pub mod selection;
pub mod text;
