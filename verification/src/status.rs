//! Terminal status of an update attempt, and the release metadata record.

use vstd::prelude::*;

verus! {

/// Status returned after updating.
///
/// Wrapped `String`s are version tags, carried verbatim.
#[derive(Debug, Clone)]
pub enum Status {
    UpToDate(String),
    Updated(String),
}

/// The version tag a `Status` carries, as a sequence of characters.
pub open spec fn spec_status_version(s: Status) -> Seq<char> {
    match s {
        Status::UpToDate(v) => v@,
        Status::Updated(v) => v@,
    }
}

impl Status {
    /// Return the version tag.
    pub fn version(&self) -> (r: &str)
        ensures
            r@ == spec_status_version(*self),
    {
        match self {
            Status::UpToDate(s) => s.as_str(),
            Status::Updated(s) => s.as_str(),
        }
    }

    /// Returns `true` if `Status::UpToDate`.
    pub fn uptodate(&self) -> (r: bool)
        ensures
            r == (self is UpToDate),
    {
        match self {
            Status::UpToDate(_) => true,
            _ => false,
        }
    }

    /// Returns `true` if `Status::Updated`.
    pub fn updated(&self) -> (r: bool)
        ensures
            r == (self is Updated),
    {
        match self {
            Status::Updated(_) => true,
            _ => false,
        }
    }
}

/// Release metadata as the release source reports it.
#[derive(Debug, Clone)]
pub struct Release {
    pub version: String,
    pub asset_name: String,
    pub download_url: String,
}

} // verus!
