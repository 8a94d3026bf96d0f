//! The update orchestrator.
//!
//! One `update()` call owns one attempt end to end: it asks the release
//! source whether the running version is current, and if not downloads the
//! release artifact into a scoped temp workspace, classifies it, extracts
//! it when it is an archive, and hands it to the installer.  The workspace
//! is released on every exit path.  The OS-facing work — the running
//! executable's path, the temp directory, extraction and installation —
//! sits behind the `Platform` and `Installer` collaborator traits, so
//! every decision the orchestrator takes is verified here.

use crate::backend::Backend;
use crate::classify::{
    is_download_installable, is_download_valid, spec_is_installable, spec_is_valid_download,
};
use crate::error::{Error, UpdaterError};
use crate::http::{Download, FileSink, HttpTransport, ProgressHandler};
use crate::paths::path_join;
use crate::status::{spec_status_version, Status};
use vstd::prelude::*;

verus! {

/// The OS-facing collaborators of one update attempt: the running
/// executable's identity, the scoped temp workspace, and the extractor.
/// Implementations do the file-system work.
pub trait Platform {
    /// The path of the running executable.
    fn current_exe(&mut self) -> Result<String, String>;

    /// Create a scoped temp directory under `parent` and return its path.
    /// It lives until `release_workspace`.
    fn create_workspace(&mut self, parent: &str, prefix: &str) -> Result<String, String>;

    /// Delete the workspace and everything under it.
    fn release_workspace(&mut self, path: &str);

    /// Unpack the archive at `archive` into the directory `into`.
    fn extract_archive(&mut self, archive: &str, into: &str) -> Result<(), String>;

    /// The first entry of the directory `dir`, in whatever order the
    /// platform enumerates it; `None` when the directory is empty.
    fn first_extracted_entry(&mut self, dir: &str) -> Result<Option<String>, String>;
}

/// The OS-specific installation primitives.  Implementations must fail
/// loudly — never silently succeed — where the platform has no installer.
pub trait Installer {
    /// Hand a directly installable artifact to the OS's native
    /// installation mechanism.
    fn install_package(&mut self, path: &str) -> Result<(), UpdaterError>;

    /// Atomically replace the running executable at `target` with the new
    /// binary.
    fn replace_executable(&mut self, new_binary: &str, target: &str) -> Result<(), UpdaterError>;
}

/// The installer of a platform that has none: it refuses every artifact,
/// loudly.
pub fn install_update(_path: String) -> (r: Result<(), Error>)
    ensures
        r == Err::<(), Error>(Error::Updater(UpdaterError::InstallNotImplemented)),
{
    Err(Error::Updater(UpdaterError::InstallNotImplemented))
}

/// An `Installer` for platforms without one: both entry points fail
/// loudly, as `install_update` does.
pub struct DefaultInstaller {}

impl Installer for DefaultInstaller {
    fn install_package(&mut self, path: &str) -> Result<(), UpdaterError> {
        match install_update(path.to_owned()) {
            Ok(_) => Ok(()),
            Err(Error::Updater(u)) => Err(u),
            Err(_) => Err(UpdaterError::InstallNotImplemented),
        }
    }

    fn replace_executable(&mut self, new_binary: &str, _target: &str) -> Result<(), UpdaterError> {
        match install_update(new_binary.to_owned()) {
            Ok(_) => Ok(()),
            Err(Error::Updater(u)) => Err(u),
            Err(_) => Err(UpdaterError::InstallNotImplemented),
        }
    }
}

/// What the version check decides: a release source that reports the
/// current version as up to date ends the attempt with
/// `Status::UpToDate`, carrying that version verbatim, before anything is
/// downloaded; otherwise the attempt goes on.
pub fn version_check_outcome(up_to_date: bool, current_version: &String) -> (r: Option<Status>)
    ensures
        up_to_date == (r is Some),
        r matches Some(s) ==> s matches Status::UpToDate(v) && v@ == current_version@,
{
    if up_to_date {
        Some(Status::UpToDate(current_version.clone()))
    } else {
        None
    }
}

/// How a downloaded artifact is to be installed.
#[derive(Debug, Clone, Copy, PartialEq, Eq, Structural)]
pub enum InstallRoute {
    /// Hand the artifact to the OS's native installation mechanism.
    Direct,
    /// Extract the archive first, then swap the executable.
    ExtractFirst,
    /// Neither: the attempt fails before any install.
    Reject,
}

/// The decision between download and install: a directly installable
/// filename skips extraction entirely, an acceptable archive is extracted
/// first, and anything else is rejected before any install attempt.
pub fn choose_install_route(filename: &String, path: &String) -> (r: InstallRoute)
    ensures
        (r is Direct) == spec_is_installable(filename@),
        (r is ExtractFirst) == (!spec_is_installable(filename@) && spec_is_valid_download(path@)),
        (r is Reject) == (!spec_is_installable(filename@) && !spec_is_valid_download(path@)),
{
    if is_download_installable(filename.clone()) {
        InstallRoute::Direct
    } else if is_download_valid(path.clone()) {
        InstallRoute::ExtractFirst
    } else {
        InstallRoute::Reject
    }
}

/// Builds an `Updater`, validating the required fields.
pub struct UpdaterBuilder<P: ProgressHandler, B: Backend> {
    pub bin_name: Option<String>,
    pub current_version: Option<String>,
    pub on_progress: Option<P>,
    pub backend: Option<B>,
}

impl<P: ProgressHandler, B: Backend> UpdaterBuilder<P, B> {
    /// Initialize a new builder.
    pub fn new() -> (r: Self)
        ensures
            r.bin_name is None,
            r.current_version is None,
            r.on_progress is None,
            r.backend is None,
    {
        UpdaterBuilder { bin_name: None, current_version: None, on_progress: None, backend: None }
    }

    /// Set the current app version, compared against the latest available
    /// version.
    pub fn current_version(self, ver: &str) -> (r: Self)
        ensures
            r.current_version matches Some(v) && v@ == ver@,
            r.bin_name == self.bin_name,
            r.on_progress == self.on_progress,
            r.backend == self.backend,
    {
        let mut b = self;
        b.current_version = Some(ver.to_owned());
        b
    }

    /// Set the exe's name.
    pub fn bin_name(self, name: &str) -> (r: Self)
        ensures
            r.bin_name matches Some(v) && v@ == name@,
            r.current_version == self.current_version,
            r.on_progress == self.on_progress,
            r.backend == self.backend,
    {
        let mut b = self;
        b.bin_name = Some(name.to_owned());
        b
    }

    /// Supply a progress handler for the download.
    pub fn on_progress(self, handler: P) -> (r: Self)
        ensures
            r.on_progress == Some(handler),
            r.bin_name == self.bin_name,
            r.current_version == self.current_version,
            r.backend == self.backend,
    {
        let mut b = self;
        b.on_progress = Some(handler);
        b
    }

    /// Supply the release source.
    pub fn backend(self, backend: B) -> (r: Self)
        ensures
            r.backend == Some(backend),
            r.bin_name == self.bin_name,
            r.current_version == self.current_version,
            r.on_progress == self.on_progress,
    {
        let mut b = self;
        b.backend = Some(backend);
        b
    }

    /// Confirm the configuration and create a ready-to-use `Updater`.
    /// Each required field that is missing fails with a `Config` error
    /// naming it, `bin_name` first, then `current_version`, then
    /// `backend`; nothing else can fail.
    pub fn build(self) -> (r: Result<Updater<P, B>, Error>)
        ensures
            self.bin_name is None ==> (r matches Err(e) && e matches Error::Config(m) && m@
                == "`bin_name` required"@),
            self.bin_name is Some && self.current_version is None ==> (r matches Err(e)
                && e matches Error::Config(m) && m@ == "`current_version` required"@),
            self.bin_name is Some && self.current_version is Some && self.backend is None ==> (
            r matches Err(e) && e matches Error::Config(m) && m@ == "`backend` required"@),
            self.bin_name is Some && self.current_version is Some && self.backend is Some ==> ({
                &&& r matches Ok(u)
                &&& self.bin_name matches Some(bn) && u.bin_name == bn
                &&& self.current_version matches Some(cv) && u.current_version == cv
                &&& u.on_progress == self.on_progress
                &&& self.backend matches Some(bk) && u.backend == bk
            }),
    {
        let UpdaterBuilder { bin_name, current_version, on_progress, backend } = self;
        let bin_name = match bin_name {
            Some(n) => n,
            None => {
                return Err(Error::Config(String::from_str("`bin_name` required")));
            },
        };
        let current_version = match current_version {
            Some(v) => v,
            None => {
                return Err(Error::Config(String::from_str("`current_version` required")));
            },
        };
        let backend = match backend {
            Some(b) => b,
            None => {
                return Err(Error::Config(String::from_str("`backend` required")));
            },
        };
        Ok(Updater { bin_name, current_version, on_progress, backend })
    }
}

impl<P: ProgressHandler, B: Backend> Default for UpdaterBuilder<P, B> {
    /// An empty builder, as `new` returns.
    fn default() -> (r: Self)
        ensures
            r.bin_name is None,
            r.current_version is None,
            r.on_progress is None,
            r.backend is None,
    {
        UpdaterBuilder::new()
    }
}

/// Updates to the latest release the release source distributes.
pub struct Updater<P: ProgressHandler, B: Backend> {
    pub bin_name: String,
    pub current_version: String,
    pub on_progress: Option<P>,
    pub backend: B,
}

impl<P: ProgressHandler, B: Backend> Updater<P, B> {
    /// Run one update attempt end to end.
    ///
    /// The release source is queried at most once for each of its two
    /// questions, in order; a report that the version is current ends the
    /// attempt as `UpToDate` with no download.  Otherwise the artifact is
    /// downloaded into a scoped temp workspace beside the running
    /// executable, classified, extracted when it is an archive, and
    /// installed; the workspace is released on every exit path.  A status
    /// is returned only with this attempt's version tag, verbatim; every
    /// failure keeps its stage's error kind, and no `Config` error can
    /// arise here.
    pub fn update<T: HttpTransport, F: FileSink, E: Platform, I: Installer>(
        self,
        transport: &mut T,
        files: &mut F,
        platform: &mut E,
        installer: &mut I,
    ) -> (r: Result<Status, Error>)
        ensures
            r matches Ok(s) ==> spec_status_version(s) == self.current_version@,
            r matches Err(e) ==> !(e is Config),
    {
        let Updater { bin_name, current_version, on_progress, backend } = self;
        let up_to_date = match backend.is_uptodate(current_version.clone()) {
            Ok(b) => b,
            Err(m) => {
                return Err(Error::Backend(m));
            },
        };
        match version_check_outcome(up_to_date, &current_version) {
            Some(s) => {
                return Ok(s);
            },
            None => {},
        }
        let bin_install_path = match platform.current_exe() {
            Ok(p) => p,
            Err(m) => {
                return Err(Error::Updater(UpdaterError::Environment(m)));
            },
        };
        let download_url = match backend.update_url(current_version.clone()) {
            Ok(u) => u,
            Err(m) => {
                return Err(Error::Backend(m));
            },
        };
        let parent = match crate::paths::path_parent(bin_install_path.as_str()) {
            Some(p) => p,
            None => {
                return Err(Error::Updater(UpdaterError::NoParentDir));
            },
        };
        let prefix = bin_name.concat("_download");
        let workspace = match platform.create_workspace(parent.as_str(), prefix.as_str()) {
            Ok(w) => w,
            Err(m) => {
                return Err(Error::Updater(UpdaterError::Workspace(m)));
            },
        };
        let outcome = run_in_workspace(
            current_version,
            on_progress,
            download_url,
            &workspace,
            &bin_install_path,
            transport,
            files,
            platform,
            installer,
        );
        platform.release_workspace(workspace.as_str());
        outcome
    }
}

/// The downloading half of one attempt, run strictly inside a live
/// workspace so that the caller can release the workspace on every exit
/// path: download, classify, extract when needed, install.
fn run_in_workspace<
    P: ProgressHandler,
    T: HttpTransport,
    F: FileSink,
    E: Platform,
    I: Installer,
>(
    current_version: String,
    on_progress: Option<P>,
    download_url: String,
    workspace: &String,
    bin_install_path: &String,
    transport: &mut T,
    files: &mut F,
    platform: &mut E,
    installer: &mut I,
) -> (r: Result<Status, Error>)
    ensures
        r matches Ok(s) ==> s matches Status::Updated(v) && v@ == current_version@,
        r matches Err(e) ==> e is Download || e is Updater,
{
    let mut downloader = Download::from_url(download_url);
    match on_progress {
        Some(h) => downloader.on_progress(h),
        None => {},
    }
    let (filename, downloaded_path) = match downloader.download_to(
        transport,
        files,
        workspace.as_str(),
    ) {
        Ok(p) => p,
        Err(e) => {
            return Err(e);
        },
    };
    match choose_install_route(&filename, &downloaded_path) {
        InstallRoute::Direct => {
            match installer.install_package(downloaded_path.as_str()) {
                Ok(_) => {},
                Err(u) => {
                    return Err(Error::Updater(u));
                },
            }
        },
        InstallRoute::ExtractFirst => {
            let extract_path = path_join(workspace.as_str(), "extracted");
            match platform.extract_archive(downloaded_path.as_str(), extract_path.as_str()) {
                Ok(_) => {},
                Err(m) => {
                    return Err(Error::Updater(UpdaterError::Extract(m)));
                },
            }
            match platform.first_extracted_entry(extract_path.as_str()) {
                Ok(Some(entry)) => {
                    match installer.replace_executable(entry.as_str(), bin_install_path.as_str()) {
                        Ok(_) => {},
                        Err(u) => {
                            return Err(Error::Updater(u));
                        },
                    }
                },
                Ok(None) => {
                    return Err(Error::Updater(UpdaterError::CannotReadExtractedDir));
                },
                Err(_m) => {
                    return Err(Error::Updater(UpdaterError::CannotReadExtractedDir));
                },
            }
        },
        InstallRoute::Reject => {
            return Err(Error::Updater(UpdaterError::InvalidFile(filename)));
        },
    }
    Ok(Status::Updated(current_version))
}

} // verus!
