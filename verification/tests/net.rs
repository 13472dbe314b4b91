use mob_rs::error::NetworkError;
use mob_rs::net::{
    add_progress, check_status, progress_kind, user_agent, write_error, DownloadRequest, ProgressDisplay, ProgressKind,
    WriteStep,
};

#[test]
fn test_request_builder() {
    let r = DownloadRequest::new()
        .url("https://x/f.zip".to_string())
        .file("/tmp/f.zip".to_string())
        .header("Accept".to_string(), "*/*".to_string())
        .silent();
    assert_eq!(r.display(), ProgressDisplay::Silent);
    assert_eq!(r.headers(), &vec![("Accept".to_string(), "*/*".to_string())]);
    let (u, f) = r.target().ok().unwrap();
    assert_eq!(u, "https://x/f.zip");
    assert_eq!(f, "/tmp/f.zip");
    assert_eq!(DownloadRequest::new().display(), ProgressDisplay::Bar);
}

#[test]
fn test_request_errors() {
    let e = DownloadRequest::new().target().unwrap_err();
    assert_eq!(e.message(), "invalid url: no URL provided");
    let e = DownloadRequest::new().url("u".to_string()).target().unwrap_err();
    assert_eq!(e.message(), "download failed: u - no output file specified");
    assert_eq!(DownloadRequest::new().url("u".to_string()).string_target().ok(), Some("u".to_string()));
}

#[test]
fn test_status_and_progress() {
    assert!(check_status(200, "u").is_ok());
    assert!(check_status(204, "u").is_ok());
    let e = check_status(404, "u").unwrap_err();
    assert_eq!(e.message(), "http error 404: u");
    assert!(check_status(302, "u").is_err());
    assert_eq!(progress_kind(ProgressDisplay::Silent, 10), ProgressKind::Hidden);
    assert_eq!(progress_kind(ProgressDisplay::Bar, 0), ProgressKind::Spinner);
    assert_eq!(progress_kind(ProgressDisplay::Bar, 10), ProgressKind::Bar(10));
    assert_eq!(progress_kind(ProgressDisplay::Spinner, 10), ProgressKind::Spinner);
    assert_eq!(add_progress(5, 7), 12);
    assert_eq!(user_agent("0.1.0"), "ModOrganizer's mob-rs/0.1.0");
}

#[test]
fn test_write_errors() {
    let e = write_error(WriteStep::Flush, "u", "/tmp/f", "disk full");
    assert_eq!(e.message(), "download failed: u - failed to flush /tmp/f: disk full");
    let e = write_error(WriteStep::CreateParent, "u", "/tmp", "denied");
    assert_eq!(e.message(), "download failed: u - failed to create parent directory /tmp: denied");
    assert_eq!(NetworkError::Interrupted.message(), "download interrupted");
}
