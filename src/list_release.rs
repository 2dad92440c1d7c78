//! The shape of the release feed.

pub use crate::api::live_update::{Asset, Release};
