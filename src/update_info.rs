//! The short form of an update: a version and the address of its package.

use vstd::prelude::*;

verus! {

/// A version and the address of its package.
#[derive(Clone, Debug, PartialEq, Eq)]
pub struct UpdateInfo {
    pub version: String,
    pub url: String,
}

impl UpdateInfo {
    /// Release notes are accepted for compatibility and not kept.
    pub fn new(version: &str, url: &str, release_notes: &str) -> (r: Self)
        ensures
            r.version@ == version@,
            r.url@ == url@,
    {
        UpdateInfo { version: String::from_str(version), url: String::from_str(url) }
    }
}

} // verus!
