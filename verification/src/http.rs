//! The streaming downloader.
//!
//! `Download` issues one GET request through a caller-supplied transport,
//! derives the output file's name from the response's
//! `Content-Disposition` header, streams the body chunk by chunk into a
//! caller-supplied file sink, and reports progress after every chunk.  The
//! transport and the sink are collaborator traits, so every decision taken
//! on what they return is verified here.

use crate::disposition::{extract_filename, spec_extract_filename};
use crate::error::{DownloadError, Error};
use crate::numeric::{parse_u64, spec_parse_u64};
use crate::paths::{path_join, spec_path_join};
use crate::progress::{advance_progress, progress_points, progress_value};
use vstd::prelude::*;

verus! {

/// One request or response header, as plain text.
pub struct Header {
    pub name: String,
    pub value: String,
}

/// The head of an HTTP response: the status code and the two headers the
/// downloader reads.  A header that is absent (or whose raw bytes cannot
/// be read as text) is `None`.
pub struct ResponseHead {
    pub status: u16,
    pub content_length: Option<String>,
    pub content_disposition: Option<String>,
}

/// The HTTP transport the downloader drives: one GET request, then the
/// response body in bounded chunks.  An empty chunk marks the end of the
/// body.  Implementations do the network I/O.
pub trait HttpTransport {
    /// Issue a GET request for `url` with the given headers.
    fn get(&mut self, url: &str, headers: &Vec<Header>) -> Result<ResponseHead, String>;

    /// The next chunk of the current response's body; empty at the end.
    fn next_chunk(&mut self) -> Result<Vec<u8>, String>;
}

/// Where the downloaded bytes go.  Implementations do the disk I/O.
pub trait FileSink {
    /// Create the destination file.
    fn create(&mut self, path: &str) -> Result<(), String>;

    /// Append one chunk to the destination file.
    fn write_chunk(&mut self, data: &Vec<u8>) -> Result<(), String>;
}

/// A caller-supplied progress sink: after each chunk it receives the bytes
/// downloaded so far (clamped to the advertised size) and the advertised
/// size, i.e. the fraction downloaded/size.  It is called only when the
/// advertised size is known and positive.
pub trait ProgressHandler {
    fn on_progress(&mut self, downloaded: u64, size: u64);
}

/// A progress sink that ignores every report.
pub struct NoProgress {}

impl ProgressHandler for NoProgress {
    fn on_progress(&mut self, _downloaded: u64, _size: u64) {
    }
}

/// True when two characters are equal up to ASCII case.
pub open spec fn chars_eq_nocase(a: char, b: char) -> bool {
    ||| a == b
    ||| (65 <= a as u32 <= 90 && b as u32 == a as u32 + 32)
    ||| (65 <= b as u32 <= 90 && a as u32 == b as u32 + 32)
}

/// True when two strings are equal up to ASCII case.
pub open spec fn str_eq_nocase(a: Seq<char>, b: Seq<char>) -> bool {
    a.len() == b.len() && forall|i: int| 0 <= i < a.len() ==> chars_eq_nocase(a[i], b[i])
}

/// The characters of the `User-Agent` header name, lower case.
pub open spec fn user_agent_name() -> Seq<char> {
    seq!['u', 's', 'e', 'r', '-', 'a', 'g', 'e', 'n', 't']
}

/// True of a header name that names the `User-Agent` header; header names
/// compare without regard to ASCII case.
pub open spec fn is_user_agent_name(s: Seq<char>) -> bool {
    str_eq_nocase(s, user_agent_name())
}

/// The User-Agent value the downloader supplies when the caller does not.
pub open spec fn default_user_agent() -> Seq<char> {
    "tauri/self-update"@
}

/// True when some header of the list names the `User-Agent` header.
pub open spec fn has_user_agent(hs: Seq<Header>) -> bool {
    exists|i: int| 0 <= i < hs.len() && is_user_agent_name(hs[i].name@)
}

/// Are two characters equal up to ASCII case?
fn char_eq_nocase(a: char, b: char) -> (r: bool)
    ensures
        r == chars_eq_nocase(a, b),
{
    let x = a as u32;
    let y = b as u32;
    a == b || (65 <= x && x <= 90 && y == x + 32) || (65 <= y && y <= 90 && x == y + 32)
}

/// Does `name` name the `User-Agent` header?
pub fn is_user_agent_header(name: &str) -> (r: bool)
    ensures
        r == is_user_agent_name(name@),
{
    let n = name.unicode_len();
    let target = "user-agent";
    proof {
        reveal_strlit("user-agent");
        assert(target@ =~= user_agent_name());
    }
    if n != 10 {
        return false;
    }
    let mut k: usize = 0;
    while k < 10
        invariant
            k <= 10,
            n == name@.len() == 10,
            target@ == user_agent_name(),
            forall|j: int| 0 <= j < k ==> chars_eq_nocase(name@[j], user_agent_name()[j]),
        decreases 10 - k,
    {
        if !char_eq_nocase(name.get_char(k), target.get_char(k)) {
            return false;
        }
        k = k + 1;
    }
    true
}

/// The caller's headers, with a default `User-Agent` appended when the
/// caller supplied none.
pub fn with_default_user_agent(headers: Vec<Header>) -> (r: Vec<Header>)
    ensures
        has_user_agent(headers@) ==> r@ == headers@,
        !has_user_agent(headers@) ==> {
            &&& r@.len() == headers@.len() + 1
            &&& r@.subrange(0, headers@.len() as int) == headers@
            &&& r@.last().name@ == user_agent_name()
            &&& r@.last().value@ == default_user_agent()
        },
{
    let mut headers = headers;
    let n = headers.len();
    let mut i: usize = 0;
    let mut found = false;
    while i < n
        invariant
            i <= n,
            n == headers@.len(),
            found == exists|j: int| 0 <= j < i && is_user_agent_name(headers@[j].name@),
        decreases n - i,
    {
        if is_user_agent_header(headers[i].name.as_str()) {
            found = true;
        }
        i = i + 1;
    }
    if found {
        headers
    } else {
        let name = String::from_str("user-agent");
        proof {
            reveal_strlit("user-agent");
            assert(name@ =~= user_agent_name());
        }
        let ghost before = headers@;
        headers.push(Header { name, value: String::from_str("tauri/self-update") });
        proof {
            assert(headers@.subrange(0, before.len() as int) =~= before);
        }
        headers
    }
}

/// True of an HTTP status in the success range.
pub open spec fn spec_success_status(s: u16) -> bool {
    200 <= s < 300
}

/// The view of an optional header value.
pub open spec fn opt_text(v: Option<String>) -> Option<Seq<char>> {
    match v {
        None => None,
        Some(s) => Some(s@),
    }
}

/// The progress denominator a response head advertises: its
/// `Content-Length` value when that is present and parses as a decimal
/// number, and zero otherwise.
pub open spec fn spec_content_length(v: Option<Seq<char>>) -> u64 {
    match v {
        None => 0,
        Some(s) => match spec_parse_u64(s) {
            None => 0,
            Some(k) => k,
        },
    }
}

/// Read the advertised content length; absent or unparseable means zero.
pub fn parse_content_length(v: &Option<String>) -> (r: u64)
    ensures
        r == spec_content_length(opt_text(*v)),
{
    match v {
        None => 0,
        Some(s) => match parse_u64(s.as_str()) {
            None => 0,
            Some(k) => k,
        },
    }
}

/// Decide everything the response head decides: reject a non-success
/// status, reject a response that does not name its file, and otherwise
/// hand back the advertised size and the output file's name.
pub fn process_response_head(head: &ResponseHead) -> (r: Result<(u64, String), Error>)
    ensures
        match r {
            Ok(p) => {
                &&& spec_success_status(head.status)
                &&& head.content_disposition matches Some(cd) && spec_extract_filename(cd@)
                    == Some(p.1@)
                &&& p.1@.len() > 0
                &&& p.0 == spec_content_length(opt_text(head.content_length))
            },
            Err(e) => match e {
                Error::Download(d) => match d {
                    DownloadError::Status(st) => st == head.status && !spec_success_status(
                        head.status,
                    ),
                    DownloadError::MissingContentDisposition => spec_success_status(head.status)
                        && head.content_disposition is None,
                    DownloadError::NoFilename(h) => {
                        &&& spec_success_status(head.status)
                        &&& head.content_disposition matches Some(cd) && h@ == cd@
                            && spec_extract_filename(cd@) is None
                    },
                    _ => false,
                },
                _ => false,
            },
        },
{
    let size = parse_content_length(&head.content_length);
    if !(200 <= head.status && head.status < 300) {
        return Err(Error::Download(DownloadError::Status(head.status)));
    }
    match &head.content_disposition {
        None => Err(Error::Download(DownloadError::MissingContentDisposition)),
        Some(cd) => match extract_filename(cd.as_str()) {
            None => Err(Error::Download(DownloadError::NoFilename(cd.clone()))),
            Some(f) => Ok((size, f)),
        },
    }
}

/// One download: a target URL, optional header overrides, and an optional
/// progress handler.
pub struct Download<P: ProgressHandler> {
    pub url: String,
    pub headers: Vec<Header>,
    pub on_progress: Option<P>,
}

impl<P: ProgressHandler> Download<P> {
    /// Specify the download URL.
    pub fn from_url(url: String) -> (r: Self)
        ensures
            r.url@ == url@,
            r.headers@ == Seq::<Header>::empty(),
            r.on_progress is None,
    {
        Download { url, headers: Vec::new(), on_progress: None }
    }

    /// Set the download request headers.
    pub fn set_headers(&mut self, headers: Vec<Header>)
        ensures
            final(self).headers == headers,
            final(self).url == old(self).url,
            final(self).on_progress == old(self).on_progress,
    {
        self.headers = headers;
    }

    /// Supply a progress handler.
    pub fn on_progress(&mut self, handler: P)
        ensures
            final(self).on_progress == Some(handler),
            final(self).url == old(self).url,
            final(self).headers == old(self).headers,
    {
        self.on_progress = Some(handler);
    }

    /// Download the file behind the URL into the directory `dest_dir`.
    ///
    /// The request carries the caller's headers plus a default User-Agent
    /// when the caller supplied none.  A non-success status, a response
    /// without a usable `Content-Disposition` header, or any transport or
    /// file failure aborts with a `Download` error before or during — but
    /// never after — writing the output file.  On success the returned
    /// path is the returned filename joined under `dest_dir`, so the file
    /// sits inside the destination directory.  The body is streamed in
    /// bounded chunks; after each chunk the progress handler, when the
    /// advertised size is positive, receives the running byte count
    /// clamped to that size (see `crate::progress`).
    pub fn download_to<T: HttpTransport, F: FileSink>(
        self,
        transport: &mut T,
        files: &mut F,
        dest_dir: &str,
    ) -> (r: Result<(String, String), Error>)
        ensures
            r matches Ok(p) ==> p.1@ == spec_path_join(dest_dir@, p.0@) && p.0@.len() > 0,
            r matches Err(e) ==> e is Download,
    {
        let Download { url, headers, on_progress } = self;
        let mut progress = on_progress;
        let merged = with_default_user_agent(headers);
        let head = match transport.get(url.as_str(), &merged) {
            Ok(h) => h,
            Err(m) => {
                return Err(Error::Download(DownloadError::Request(m)));
            },
        };
        let (size, filename) = match process_response_head(&head) {
            Ok(p) => p,
            Err(e) => {
                return Err(e);
            },
        };
        let dest_path = path_join(dest_dir, filename.as_str());
        match files.create(dest_path.as_str()) {
            Ok(_) => {},
            Err(m) => {
                return Err(Error::Download(DownloadError::File(m)));
            },
        }
        let mut downloaded: u64 = 0;
        let ghost mut lens: Seq<nat> = Seq::empty();
        // Each chunk holds at least one byte, so this budget gives the body
        // room for u64::MAX bytes before the download is abandoned.
        let mut chunk_budget: u64 = u64::MAX;
        loop
            invariant
                downloaded <= size,
                downloaded as nat == progress_value(lens, size as nat),
            decreases chunk_budget,
        {
            if chunk_budget == 0 {
                return Err(
                    Error::Download(
                        DownloadError::Request(
                            String::from_str("response body is longer than supported"),
                        ),
                    ),
                );
            }
            chunk_budget = chunk_budget - 1;
            let data = match transport.next_chunk() {
                Ok(d) => d,
                Err(m) => {
                    return Err(Error::Download(DownloadError::Request(m)));
                },
            };
            if data.len() == 0 {
                break ;
            }
            match files.write_chunk(&data) {
                Ok(_) => {},
                Err(m) => {
                    return Err(Error::Download(DownloadError::File(m)));
                },
            }
            let next = advance_progress(downloaded, data.len(), size);
            proof {
                let prev = lens;
                lens = lens.push(data@.len());
                assert(lens.drop_last() =~= prev);
            }
            downloaded = next;
            proof {
                // what is reported below is the next of the progress
                // points whose guarantees crate::progress states
                assert(lens.subrange(0, lens.len() as int) =~= lens);
                assert(downloaded as nat == progress_points(lens, size as nat).last());
            }
            if size > 0 {
                match &mut progress {
                    Some(p) => p.on_progress(downloaded, size),
                    None => {},
                }
            }
        }
        Ok((filename, dest_path))
    }
}

} // verus!
