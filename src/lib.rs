//! Update resolution for a live-update server: given what a client reports
//! about the app it runs and the releases of that app's repository, decide
//! whether a newer release applies and where its package, key and checksum are.

pub mod api;
pub mod identity;
pub mod list_release;
pub mod text;
pub mod update_info;
