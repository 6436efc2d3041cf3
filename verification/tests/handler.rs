use serve_dir::HandlerResult;
use serve_dir::LogEvent;
use serve_dir::LogLevel;
use serve_dir::OpenOutcome;
use serve_dir::Response;
use serve_dir::ServeDir;

type Outcome = OpenOutcome<Vec<u8>, String>;
type Decision = HandlerResult<Vec<u8>, String>;

/// A stand-in for the sandboxed directory: a fixed set of files, plus
/// directories whose contents may not be read. Paths that try to climb out
/// of the root are reported as access violations, as the sandbox primitive
/// reports them.
fn open_in(files: &[(&str, &[u8])], denied: &[&str], path: &str) -> Outcome {
    if path.starts_with("../") || path.contains("/../") {
        return OpenOutcome::PermissionDenied;
    }
    for d in denied {
        if path == *d || path.starts_with(&format!("{}/", d)) {
            return OpenOutcome::PermissionDenied;
        }
    }
    for (name, contents) in files {
        if *name == path {
            return OpenOutcome::Opened(contents.to_vec());
        }
    }
    OpenOutcome::NotFound
}

fn static_files() -> Vec<(&'static str, &'static [u8])> {
    vec![("foo", b"Foobar")]
}

fn serve(prefix: &str, url_path: &str, files: &[(&str, &[u8])], denied: &[&str]) -> (Decision, Option<LogEvent>) {
    let handler = ServeDir::new(prefix.to_string());
    let rel = handler
        .requested_path(url_path)
        .expect("router dispatched a non-matching path");
    let info = handler.request_event(&rel);
    assert_eq!(info.level(), LogLevel::Info);
    assert_eq!(info.path(), &rel);
    let outcome = open_in(files, denied, &rel);
    handler.respond(&rel, outcome)
}

fn respond_parts(r: Decision) -> (u16, Option<Vec<u8>>) {
    match r {
        HandlerResult::Respond(Response { status, body }) => (status.code(), body),
        HandlerResult::Fail(e) => panic!("unexpected failure: {}", e),
    }
}

#[test]
fn ok() {
    let files = static_files();
    let (r, warn) = serve("/static/", "/static/foo", &files, &[]);
    let (status, body) = respond_parts(r);
    assert_eq!(status, 200);
    assert_eq!(String::from_utf8(body.unwrap()).unwrap(), "Foobar");
    assert!(warn.is_none());
}

#[test]
fn not_found() {
    let files = static_files();
    let (r, warn) = serve("/static/", "/static/bar", &files, &[]);
    let (status, body) = respond_parts(r);
    assert_eq!(status, 404);
    assert_eq!(body, None);
    let warn = warn.unwrap();
    assert_eq!(warn.level(), LogLevel::Warn);
    assert_eq!(warn.path().as_str(), "bar");
    assert_eq!(warn.message(), "File not found: bar");
}

#[test]
fn wildcard_prefix_is_stripped() {
    let handler = ServeDir::new("/static/*".to_string());
    let rel = handler.requested_path("/static/foo");
    assert_eq!(rel, Some("foo".to_string()));
}

#[test]
fn leading_slashes_normalize() {
    let handler = ServeDir::new("/static".to_string());
    let plain = handler.requested_path("/static/foo");
    let redundant = handler.requested_path("/static///foo");
    assert_eq!(plain, Some("foo".to_string()));
    assert_eq!(redundant, plain);
}

#[test]
fn prefix_mismatch_is_a_fault() {
    let handler = ServeDir::new("/static/".to_string());
    assert_eq!(handler.requested_path("/assets/foo"), None);
}

#[test]
fn repeated_request_is_idempotent() {
    let files = static_files();
    let first = serve("/static/", "/static/foo", &files, &[]);
    let second = serve("/static/", "/static/foo", &files, &[]);
    let (s1, b1) = respond_parts(first.0);
    let (s2, b2) = respond_parts(second.0);
    assert_eq!(s1, s2);
    assert_eq!(b1, b2);
}

#[test]
fn escape_attempt_never_leaks() {
    let files = static_files();
    let (r, _) = serve("/static/", "/static/../secret", &files, &[]);
    let (status, body) = respond_parts(r);
    assert_ne!(status, 200);
    assert_eq!(body, None);
}

#[test]
fn forbidden_directory_logs_warning() {
    let files = static_files();
    let (r, warn) = serve("/static/", "/static/private/notes", &files, &["private"]);
    let (status, body) = respond_parts(r);
    assert_eq!(status, 403);
    assert_eq!(body, None);
    let warn = warn.unwrap();
    assert_eq!(warn.level(), LogLevel::Warn);
    assert_eq!(warn.path().as_str(), "private/notes");
    assert_eq!(warn.message(), "Unauthorized attempt to read: private/notes");
}

#[test]
fn request_event_is_informational() {
    let handler = ServeDir::new("/static/".to_string());
    let event = handler.request_event("foo");
    assert_eq!(event.level(), LogLevel::Info);
    assert_eq!(event.path().as_str(), "foo");
    assert_eq!(event.message(), "Requested file: foo");
}

#[test]
fn other_failure_is_propagated_untranslated() {
    let handler = ServeDir::new("/static/".to_string());
    let outcome: Outcome = OpenOutcome::Other("device not ready".to_string());
    let (r, warn) = handler.respond("foo", outcome);
    assert!(warn.is_none());
    match r {
        HandlerResult::Fail(e) => assert_eq!(e, "device not ready"),
        HandlerResult::Respond(_) => panic!("an unexpected failure must not become a response"),
    }
}

#[test]
fn bare_wildcard_prefix_matches_everything() {
    let handler = ServeDir::new("*".to_string());
    assert_eq!(handler.requested_path("/foo"), Some("foo".to_string()));
    assert_eq!(handler.requested_path("docs/a.txt"), Some("docs/a.txt".to_string()));
}

#[test]
fn non_ascii_paths_are_derived_by_character() {
    let handler = ServeDir::new("/статика/*".to_string());
    assert_eq!(handler.requested_path("/статика/café"), Some("café".to_string()));
    assert_eq!(handler.requested_path("/статика//café"), Some("café".to_string()));
    assert_eq!(handler.requested_path("/static/café"), None);
}

#[test]
fn empty_remainder_requests_the_root() {
    let handler = ServeDir::new("/static/".to_string());
    assert_eq!(handler.requested_path("/static/"), Some(String::new()));
    assert_eq!(handler.requested_path("/static"), None);
}
