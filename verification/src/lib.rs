//! Request handling for a small quote service backed by a document store.
//!
//! The crate holds the decisions of the service: how a quote is built, which
//! command a request sends to the store, and which reply each outcome of the
//! store gives. Talking to the store and to the network is left to the caller.

pub mod handlers;
pub mod laws;
pub mod object_id;
pub mod quote;
pub mod server;
pub mod status;
pub mod store;
pub mod utils;
