//! Error kinds for a whole update attempt.
//!
//! Every stage failure aborts the attempt immediately; nothing is retried
//! inside the library.

use vstd::prelude::*;

verus! {

/// What went wrong while talking to the release artifact's HTTP source.
#[derive(Debug, Clone, PartialEq, Eq)]
pub enum DownloadError {
    /// The transport could not complete the request; carries its message.
    Request(String),
    /// The response had a non-success HTTP status; carries the raw status.
    Status(u16),
    /// The response carried no `Content-Disposition` header, so the output
    /// file cannot be named.
    MissingContentDisposition,
    /// The `Content-Disposition` header value matched no `filename=`
    /// pattern; carries the raw header text.
    NoFilename(String),
    /// The destination file could not be created or written.
    File(String),
}

/// Structural failures of the orchestrator itself.
#[derive(Debug, Clone, PartialEq, Eq)]
pub enum UpdaterError {
    /// The running executable's parent directory could not be determined.
    NoParentDir,
    /// The running executable's path could not be read.
    Environment(String),
    /// The scoped temp workspace could not be created.
    Workspace(String),
    /// The extractor failed on the downloaded archive.
    Extract(String),
    /// The extraction directory was unreadable or empty.
    CannotReadExtractedDir,
    /// The downloaded artifact is neither directly installable nor an
    /// archive; carries the offending filename.
    InvalidFile(String),
    /// No installer is implemented for the current platform.
    InstallNotImplemented,
    /// The installer reported a failure.
    Install(String),
}

/// A terminal error of one update attempt.
#[derive(Debug, Clone, PartialEq, Eq)]
pub enum Error {
    /// A required configuration field is missing; carries its name.
    Config(String),
    /// The release source failed to answer a query; carries its message.
    Backend(String),
    /// The download stage failed.
    Download(DownloadError),
    /// A structural failure of the orchestrator.
    Updater(UpdaterError),
}

impl Error {
    /// True exactly for the `Config` kind.
    pub fn is_config(&self) -> (r: bool)
        ensures
            r == (self is Config),
    {
        match self {
            Error::Config(_) => true,
            _ => false,
        }
    }

    /// True exactly for the `Backend` kind.
    pub fn is_backend(&self) -> (r: bool)
        ensures
            r == (self is Backend),
    {
        match self {
            Error::Backend(_) => true,
            _ => false,
        }
    }

    /// True exactly for the `Download` kind.
    pub fn is_download(&self) -> (r: bool)
        ensures
            r == (self is Download),
    {
        match self {
            Error::Download(_) => true,
            _ => false,
        }
    }

    /// True exactly for the `Updater` kind.
    pub fn is_updater(&self) -> (r: bool)
        ensures
            r == (self is Updater),
    {
        match self {
            Error::Updater(_) => true,
            _ => false,
        }
    }
}

} // verus!
