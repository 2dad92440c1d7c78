//! The operations that the server offers to clients.

pub mod live_update;
pub mod stats;
