//! Classification of a downloaded artifact by its file name.
//!
//! A name ending in `.exe`, `.deb` or `.app` is handed to the OS's native
//! installation mechanism; an extension of `gz` or `zip` marks a compressed
//! archive that must be extracted first; anything else is invalid and fatal
//! to the attempt.

use crate::paths::spec_extension;
use vstd::prelude::*;

verus! {

/// How a downloaded artifact must be installed.
#[derive(Debug, Clone, Copy, PartialEq, Eq, Structural)]
pub enum ArtifactKind {
    /// Handed directly to the OS's native installation mechanism.
    DirectInstallable,
    /// A compressed archive, extracted before installing.
    Archive,
    /// Neither; fatal to the update attempt.
    Invalid,
}

/// True of a name that the OS can install directly.
pub open spec fn spec_is_installable(s: Seq<char>) -> bool {
    ||| spec_ends_with(s, ".deb"@)
    ||| spec_ends_with(s, ".exe"@)
    ||| spec_ends_with(s, ".app"@)
}

/// True of a path whose extension marks a compressed archive.
pub open spec fn spec_is_archive(p: Seq<char>) -> bool {
    match spec_extension(p) {
        Some(e) => e == "gz"@ || e == "zip"@,
        None => false,
    }
}

/// True of a download the orchestrator accepts: an archive by extension,
/// or a directly installable name.
pub open spec fn spec_is_valid_download(p: Seq<char>) -> bool {
    match spec_extension(p) {
        Some(e) => e == "gz"@ || e == "zip"@ || spec_is_installable(p),
        None => spec_is_installable(p),
    }
}

/// The classifier's decision on a path.
pub open spec fn spec_classify(p: Seq<char>) -> ArtifactKind {
    if spec_is_installable(p) {
        ArtifactKind::DirectInstallable
    } else if spec_is_archive(p) {
        ArtifactKind::Archive
    } else {
        ArtifactKind::Invalid
    }
}

/// True when `s` ends with `suffix`.
pub open spec fn spec_ends_with(s: Seq<char>, suffix: Seq<char>) -> bool {
    s.len() >= suffix.len() && s.subrange(s.len() - suffix.len(), s.len() as int) == suffix
}

/// The classifier's decision is exactly the branching the orchestrator
/// applies: directly installable names are installed as they are, and of
/// the rest exactly the accepted downloads are the archives.
pub proof fn lemma_classify_matches_route(p: Seq<char>)
    ensures
        (spec_classify(p) == ArtifactKind::DirectInstallable) == spec_is_installable(p),
        (spec_classify(p) == ArtifactKind::Archive) == (!spec_is_installable(p)
            && spec_is_valid_download(p)),
        (spec_classify(p) == ArtifactKind::Invalid) == (!spec_is_installable(p)
            && !spec_is_valid_download(p)),
{
    if !spec_is_installable(p) {
        match spec_extension(p) {
            Some(e) => {
                assert(spec_is_valid_download(p) == spec_is_archive(p));
            },
            None => {
                assert(!spec_is_valid_download(p) && !spec_is_archive(p));
            },
        }
    }
}

/// Does `s` end with `suffix`?
pub fn str_ends_with(s: &str, suffix: &str) -> (r: bool)
    ensures
        r == spec_ends_with(s@, suffix@),
{
    let n = s.unicode_len();
    let m = suffix.unicode_len();
    if m > n {
        return false;
    }
    let mut k: usize = 0;
    while k < m
        invariant
            k <= m <= n,
            n == s@.len(),
            m == suffix@.len(),
            forall|j: int| 0 <= j < k ==> s@[n - m + j] == suffix@[j],
        decreases m - k,
    {
        let a = s.get_char(n - m + k);
        let b = suffix.get_char(k);
        if a != b {
            proof {
                let tail = s@.subrange(n - m, n as int);
                assert(tail[k as int] == s@[n - m + k]);
                assert(tail != suffix@);
            }
            return false;
        }
        k = k + 1;
    }
    proof {
        assert(s@.subrange(n - m, n as int) =~= suffix@);
    }
    true
}

/// Is the file name one that the OS can install directly?
pub fn is_download_installable(filename: String) -> (r: bool)
    ensures
        r == spec_is_installable(filename@),
{
    let f = filename.as_str();
    str_ends_with(f, ".deb") || str_ends_with(f, ".exe") || str_ends_with(f, ".app")
}

/// Is the downloaded path something the orchestrator can handle at all?
pub fn is_download_valid(path: String) -> (r: bool)
    ensures
        r == spec_is_valid_download(path@),
{
    match crate::paths::extension(path.as_str()) {
        Some(e) => {
            if e == String::from_str("gz") || e == String::from_str("zip") {
                true
            } else {
                is_download_installable(path)
            }
        },
        None => is_download_installable(path),
    }
}

/// Classify an artifact by its path.
pub fn classify(path: &str) -> (k: ArtifactKind)
    ensures
        k == spec_classify(path@),
{
    if is_download_installable(path.to_owned()) {
        ArtifactKind::DirectInstallable
    } else {
        match crate::paths::extension(path) {
            Some(e) => {
                if e == String::from_str("gz") || e == String::from_str("zip") {
                    ArtifactKind::Archive
                } else {
                    ArtifactKind::Invalid
                }
            },
            None => ArtifactKind::Invalid,
        }
    }
}

} // verus!
