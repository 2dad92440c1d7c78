//! Usage statistics that clients report: acknowledged, nothing is decided.

use vstd::prelude::*;

verus! {

/// One usage event that a client reports.
#[derive(Clone, Debug, PartialEq, Eq)]
pub struct AppStats {
    pub version_name: String,
    pub action: String,
    pub version_build: String,
    pub version_code: String,
    pub version_os: String,
    pub plugin_version: String,
    pub platform: String,
    pub app_id: String,
    pub device_id: String,
    pub custom_id: Option<String>,
    pub is_prod: Option<bool>,
    pub is_emulator: Option<bool>,
}

/// The acknowledgement of a usage report.
#[derive(Clone, Debug, PartialEq, Eq)]
pub struct Stats {
    pub status: String,
}

/// Every usage report is acknowledged with status `success`.
pub fn handle_stats_request(app_stats: &AppStats) -> (r: Stats)
    ensures
        r.status@ == "success"@,
{
    Stats { status: String::from_str("success") }
}

} // verus!
