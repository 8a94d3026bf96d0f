//! The pluggable release source.

use vstd::prelude::*;

verus! {

/// A release source: answers whether the current version is up to date and
/// where the newer release can be downloaded.
///
/// Implementations may do network I/O internally; any error they report is
/// fatal to the whole update attempt and is never retried by the
/// orchestrator.
pub trait Backend {
    /// Is `version` already the newest available build?
    fn is_uptodate(&self, version: String) -> Result<bool, String>;

    /// The URL that serves the newer release for an application currently
    /// at `version`.
    fn update_url(&self, version: String) -> Result<String, String>;
}

} // verus!
