//! Message routing and document synchronisation for a completion server.
//!
//! Inbound protocol messages are classified by kind and method name, their
//! payloads decoded, and either the document store is updated or a completion
//! engine is asked for items. Every entry point states in its contract what it
//! returns, what it does to the store and which signals it raises.

pub mod classify;
pub mod completion;
pub mod dispatch;
pub mod json;
pub mod laws;
pub mod message;
pub mod store;
pub mod sync;
