use tauri_updater::error::{DownloadError, Error};
use tauri_updater::http::{
    is_user_agent_header, with_default_user_agent, Download, FileSink, Header, HttpTransport,
    NoProgress, ProgressHandler, ResponseHead,
};

struct MockTransport {
    status: u16,
    content_length: Option<String>,
    content_disposition: Option<String>,
    chunks: Vec<Vec<u8>>,
    next: usize,
    get_calls: usize,
    seen_headers: Vec<(String, String)>,
}

impl MockTransport {
    fn new(
        status: u16,
        content_length: Option<&str>,
        content_disposition: Option<&str>,
        chunks: Vec<Vec<u8>>,
    ) -> Self {
        MockTransport {
            status,
            content_length: content_length.map(String::from),
            content_disposition: content_disposition.map(String::from),
            chunks,
            next: 0,
            get_calls: 0,
            seen_headers: Vec::new(),
        }
    }
}

impl HttpTransport for MockTransport {
    fn get(&mut self, _url: &str, headers: &Vec<Header>) -> Result<ResponseHead, String> {
        self.get_calls += 1;
        for h in headers {
            self.seen_headers.push((h.name.clone(), h.value.clone()));
        }
        Ok(ResponseHead {
            status: self.status,
            content_length: self.content_length.clone(),
            content_disposition: self.content_disposition.clone(),
        })
    }

    fn next_chunk(&mut self) -> Result<Vec<u8>, String> {
        if self.next < self.chunks.len() {
            let c = self.chunks[self.next].clone();
            self.next += 1;
            Ok(c)
        } else {
            Ok(Vec::new())
        }
    }
}

struct MockSink {
    created: Option<String>,
    create_calls: usize,
    written: Vec<u8>,
}

impl MockSink {
    fn new() -> Self {
        MockSink { created: None, create_calls: 0, written: Vec::new() }
    }
}

impl FileSink for MockSink {
    fn create(&mut self, path: &str) -> Result<(), String> {
        self.create_calls += 1;
        self.created = Some(String::from(path));
        Ok(())
    }

    fn write_chunk(&mut self, data: &Vec<u8>) -> Result<(), String> {
        self.written.extend_from_slice(data);
        Ok(())
    }
}

#[test]
fn download_writes_the_named_file_into_the_destination() {
    let mut transport = MockTransport::new(
        200,
        Some("11"),
        Some("filename=app.zip"),
        vec![b"hello ".to_vec(), b"world".to_vec()],
    );
    let mut sink = MockSink::new();
    let d: Download<NoProgress> = Download::from_url(String::from("http://host/app.zip"));
    let (name, path) = d.download_to(&mut transport, &mut sink, "/tmp/work").unwrap();
    assert_eq!(name, "app.zip");
    assert_eq!(path, "/tmp/work/app.zip");
    assert_eq!(sink.created, Some(String::from("/tmp/work/app.zip")));
    assert_eq!(sink.written, b"hello world".to_vec());
}

#[test]
fn missing_content_disposition_fails_and_writes_nothing() {
    let mut transport = MockTransport::new(200, Some("4"), None, vec![b"data".to_vec()]);
    let mut sink = MockSink::new();
    let d: Download<NoProgress> = Download::from_url(String::from("http://host/x"));
    let err = d.download_to(&mut transport, &mut sink, "/tmp/work").unwrap_err();
    assert_eq!(err, Error::Download(DownloadError::MissingContentDisposition));
    assert_eq!(sink.create_calls, 0);
    assert!(sink.written.is_empty());
}

#[test]
fn non_success_status_fails_with_the_status() {
    let mut transport = MockTransport::new(500, None, Some("filename=x.zip"), vec![]);
    let mut sink = MockSink::new();
    let d: Download<NoProgress> = Download::from_url(String::from("http://host/x"));
    let err = d.download_to(&mut transport, &mut sink, "/tmp").unwrap_err();
    assert_eq!(err, Error::Download(DownloadError::Status(500)));
    assert_eq!(sink.create_calls, 0);
}

#[test]
fn progress_reports_climb_to_exactly_the_advertised_size() {
    let mut transport = MockTransport::new(
        200,
        Some("10"),
        Some("filename=app.zip"),
        vec![vec![7u8; 4], vec![7u8; 4], vec![7u8; 2]],
    );
    let mut sink = MockSink::new();
    let mut d: Download<SharedProgress> = Download::from_url(String::from("http://host/app.zip"));
    let seen = std::rc::Rc::new(std::cell::RefCell::new(Vec::new()));
    d.on_progress(SharedProgress { reports: seen.clone() });
    let (_name, _path) = d.download_to(&mut transport, &mut sink, "/tmp").unwrap();
    assert_eq!(sink.written.len(), 10);
    assert_eq!(seen.borrow().as_slice(), &[(4u64, 10u64), (8, 10), (10, 10)]);
}

#[test]
fn progress_reports_are_monotone_and_clamped() {
    // body longer than advertised: reports never pass the advertised size
    let mut transport = MockTransport::new(
        200,
        Some("6"),
        Some("filename=app.zip"),
        vec![vec![1u8; 4], vec![1u8; 4], vec![1u8; 4]],
    );
    let mut sink = MockSink::new();
    let mut d: Download<SharedProgress> = Download::from_url(String::from("http://host/app.zip"));
    let seen = std::rc::Rc::new(std::cell::RefCell::new(Vec::new()));
    d.on_progress(SharedProgress { reports: seen.clone() });
    d.download_to(&mut transport, &mut sink, "/tmp").unwrap();
    let reports = seen.borrow();
    assert_eq!(reports.as_slice(), &[(4u64, 6u64), (6, 6), (6, 6)]);
    let mut last = 0u64;
    for &(done, size) in reports.iter() {
        assert!(done >= last, "progress went backwards");
        assert!(done <= size, "fraction passed one");
        last = done;
    }
}

#[test]
fn exact_body_ends_at_fraction_one() {
    let mut transport = MockTransport::new(
        200,
        Some("8"),
        Some("filename=app.zip"),
        vec![vec![1u8; 3], vec![1u8; 5]],
    );
    let mut sink = MockSink::new();
    let mut d: Download<SharedProgress> = Download::from_url(String::from("http://host/app.zip"));
    let seen = std::rc::Rc::new(std::cell::RefCell::new(Vec::new()));
    d.on_progress(SharedProgress { reports: seen.clone() });
    d.download_to(&mut transport, &mut sink, "/tmp").unwrap();
    let reports = seen.borrow();
    assert_eq!(*reports.last().unwrap(), (8u64, 8u64));
}

#[test]
fn unknown_size_suppresses_progress() {
    let mut transport =
        MockTransport::new(200, None, Some("filename=app.zip"), vec![vec![1u8; 3]]);
    let mut sink = MockSink::new();
    let mut d: Download<SharedProgress> = Download::from_url(String::from("http://host/app.zip"));
    let seen = std::rc::Rc::new(std::cell::RefCell::new(Vec::new()));
    d.on_progress(SharedProgress { reports: seen.clone() });
    d.download_to(&mut transport, &mut sink, "/tmp").unwrap();
    assert!(seen.borrow().is_empty());
}

struct SharedProgress {
    reports: std::rc::Rc<std::cell::RefCell<Vec<(u64, u64)>>>,
}

impl ProgressHandler for SharedProgress {
    fn on_progress(&mut self, downloaded: u64, size: u64) {
        self.reports.borrow_mut().push((downloaded, size));
    }
}

#[test]
fn a_default_user_agent_is_supplied_when_missing() {
    let merged = with_default_user_agent(Vec::new());
    assert_eq!(merged.len(), 1);
    assert_eq!(merged[0].name, "user-agent");
    assert_eq!(merged[0].value, "tauri/self-update");
}

#[test]
fn a_caller_supplied_user_agent_is_kept() {
    let own = vec![Header { name: String::from("User-Agent"), value: String::from("mine/1.0") }];
    let merged = with_default_user_agent(own);
    assert_eq!(merged.len(), 1);
    assert_eq!(merged[0].value, "mine/1.0");
}

#[test]
fn user_agent_names_compare_without_case() {
    assert!(is_user_agent_header("USER-AGENT"));
    assert!(is_user_agent_header("User-Agent"));
    assert!(!is_user_agent_header("accept"));
}

#[test]
fn the_request_carries_the_default_user_agent() {
    let mut transport = MockTransport::new(200, None, Some("filename=a.zip"), vec![]);
    let mut sink = MockSink::new();
    let d: Download<NoProgress> = Download::from_url(String::from("http://host/a.zip"));
    d.download_to(&mut transport, &mut sink, "/tmp").unwrap();
    assert_eq!(transport.get_calls, 1);
    assert_eq!(
        transport.seen_headers,
        vec![(String::from("user-agent"), String::from("tauri/self-update"))]
    );
}
