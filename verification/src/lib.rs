//! Self-update orchestration for a packaged application.
//!
//! The crate decides whether a newer build exists (through a pluggable
//! release source), streams the release artifact to disk with progress
//! reporting, classifies the artifact, and drives extraction and
//! installation.  All sequencing, protocol-parsing and failure-handling
//! logic lives here and is verified; the network, the file system and the
//! OS installer are reached only through collaborator traits that callers
//! implement.

pub mod backend;
pub mod classify;
pub mod disposition;
pub mod error;
pub mod http;
pub mod numeric;
pub mod paths;
pub mod progress;
pub mod status;
pub mod updater;

