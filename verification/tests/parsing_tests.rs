use tauri_updater::disposition::extract_filename;
use tauri_updater::http::{parse_content_length, process_response_head, ResponseHead};
use tauri_updater::error::{DownloadError, Error};
use tauri_updater::numeric::parse_u64;
use tauri_updater::paths::{extension, file_name, path_join, path_parent};

#[test]
fn quoted_filename_is_captured_verbatim() {
    let got = extract_filename("filename=\"app-1.2.3.tar.gz\"");
    assert_eq!(got, Some(String::from("\"app-1.2.3.tar.gz\"")));
}

#[test]
fn trailing_parameters_are_kept() {
    let got = extract_filename("attachment; filename=x.zip; foo=bar");
    assert_eq!(got, Some(String::from("x.zip; foo=bar")));
}

#[test]
fn plain_filename_is_captured() {
    assert_eq!(extract_filename("filename=app.zip"), Some(String::from("app.zip")));
}

#[test]
fn missing_marker_yields_nothing() {
    assert_eq!(extract_filename("attachment"), None);
    assert_eq!(extract_filename(""), None);
    assert_eq!(extract_filename("filename="), None);
}

#[test]
fn capture_stops_at_a_line_break() {
    assert_eq!(extract_filename("filename=a.zip\nrest"), Some(String::from("a.zip")));
    // a marker followed only by a line break does not match; a later one does
    assert_eq!(extract_filename("filename=\nfilename=b.gz"), Some(String::from("b.gz")));
}

#[test]
fn content_length_parses_decimals() {
    assert_eq!(parse_u64("0"), Some(0));
    assert_eq!(parse_u64("1024"), Some(1024));
    assert_eq!(parse_u64("+5"), Some(5));
    assert_eq!(parse_u64("18446744073709551615"), Some(u64::MAX));
}

#[test]
fn content_length_rejects_junk_and_overflow() {
    assert_eq!(parse_u64(""), None);
    assert_eq!(parse_u64("+"), None);
    assert_eq!(parse_u64("12a"), None);
    assert_eq!(parse_u64("-3"), None);
    assert_eq!(parse_u64("18446744073709551616"), None);
}

#[test]
fn absent_or_bad_content_length_means_zero() {
    assert_eq!(parse_content_length(&None), 0);
    assert_eq!(parse_content_length(&Some(String::from("nonsense"))), 0);
    assert_eq!(parse_content_length(&Some(String::from("77"))), 77);
}

#[test]
fn response_head_success_yields_size_and_name() {
    let head = ResponseHead {
        status: 200,
        content_length: Some(String::from("10")),
        content_disposition: Some(String::from("filename=app.zip")),
    };
    let got = process_response_head(&head).unwrap();
    assert_eq!(got.0, 10);
    assert_eq!(got.1, String::from("app.zip"));
}

#[test]
fn response_head_failure_carries_the_status() {
    let head = ResponseHead {
        status: 404,
        content_length: None,
        content_disposition: Some(String::from("filename=app.zip")),
    };
    let err = process_response_head(&head).unwrap_err();
    assert_eq!(err, Error::Download(DownloadError::Status(404)));
}

#[test]
fn response_head_without_disposition_is_a_download_error() {
    let head = ResponseHead { status: 200, content_length: None, content_disposition: None };
    let err = process_response_head(&head).unwrap_err();
    assert_eq!(err, Error::Download(DownloadError::MissingContentDisposition));
}

#[test]
fn response_head_with_unusable_disposition_names_it() {
    let head = ResponseHead {
        status: 204,
        content_length: None,
        content_disposition: Some(String::from("attachment")),
    };
    let err = process_response_head(&head).unwrap_err();
    assert_eq!(err, Error::Download(DownloadError::NoFilename(String::from("attachment"))));
}

#[test]
fn path_text_helpers_follow_unix_paths() {
    assert_eq!(path_join("/tmp/work", "app.zip"), String::from("/tmp/work/app.zip"));
    assert_eq!(path_join("/tmp/work/", "app.zip"), String::from("/tmp/work/app.zip"));
    assert_eq!(path_join("", "app.zip"), String::from("app.zip"));
    assert_eq!(file_name("/a/b/c.txt"), String::from("c.txt"));
    assert_eq!(extension("/a/b/c.tar.gz"), Some(String::from("gz")));
    assert_eq!(extension("/a/b/.app"), None);
    assert_eq!(extension("/a/b/plain"), None);
    assert_eq!(path_parent("/usr/local/bin/app"), Some(String::from("/usr/local/bin")));
    assert_eq!(path_parent("app"), Some(String::from("")));
    assert_eq!(path_parent("/app"), Some(String::from("/")));
    assert_eq!(path_parent("/"), None);
    assert_eq!(path_parent(""), None);
}
