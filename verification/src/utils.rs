//! What the service needs at start-up.

pub mod connection;
pub mod decimal;
