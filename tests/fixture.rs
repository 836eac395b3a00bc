use std::collections::HashSet;

use couch_rs::error::CouchError;
use couch_rs::http::StatusCode;
use couch_rs_test::config::TestRepoConfig;
use couch_rs_test::naming::{
    generate_unique_name, lower_alnum_char, random_suffix, suffix_from_bytes, unique_name, SUFFIX_LEN,
};
use couch_rs_test::signal::CancellationSignal;
use couch_rs_test::store::{
    classify_create_error, classify_create_status, is_http_uri_exec, starts_with_ignoring_case_exec, teardown_outcome,
    ConnectError, CreateFailure, TeardownOutcome, PRECONDITION_FAILED,
};
use couch_rs_test::teardown::{OwnerAction, OwnerState, WatcherAction, WatcherState};

fn is_lower_alnum(c: char) -> bool {
    c.is_ascii_digit() || c.is_ascii_lowercase()
}

#[test]
fn config_keeps_its_fields() {
    let cfg = TestRepoConfig::new("http://localhost:5984", "admin", "secret", "orders_test");
    assert_eq!(cfg.uri(), "http://localhost:5984");
    assert_eq!(cfg.username(), "admin");
    assert_eq!(cfg.password(), "secret");
    assert_eq!(cfg.db_name(), "orders_test");
}

#[test]
fn with_name_replaces_only_the_name() {
    let cfg = TestRepoConfig::new("http://h:5984", "u", "p", "base").with_name("base-abc".to_string());
    assert_eq!(cfg.uri(), "http://h:5984");
    assert_eq!(cfg.username(), "u");
    assert_eq!(cfg.password(), "p");
    assert_eq!(cfg.db_name(), "base-abc");
}

#[test]
fn with_unique_name_appends_suffix() {
    let cfg = TestRepoConfig::new("http://h:5984", "u", "p", "orders_test").with_unique_name();
    let name = cfg.db_name();
    assert!(name.starts_with("orders_test-"));
    assert_eq!(name.len(), "orders_test-".len() + 12);
    assert!(name["orders_test-".len()..].chars().all(is_lower_alnum));
    assert_eq!(cfg.uri(), "http://h:5984");
}

#[test]
fn unique_name_joins_with_hyphen() {
    assert_eq!(unique_name("orders_test", "abc123def456"), "orders_test-abc123def456");
    assert_eq!(unique_name("", "x"), "-x");
}

#[test]
fn lower_alnum_char_lowercases_letters_only() {
    assert_eq!(lower_alnum_char(b'A'), 'a');
    assert_eq!(lower_alnum_char(b'Z'), 'z');
    assert_eq!(lower_alnum_char(b'q'), 'q');
    assert_eq!(lower_alnum_char(b'0'), '0');
    assert_eq!(lower_alnum_char(b'9'), '9');
}

#[test]
fn random_suffix_is_lowercase_alphanumeric() {
    for _ in 0..200 {
        let s = random_suffix();
        assert_eq!(s.len(), SUFFIX_LEN);
        assert!(s.chars().all(is_lower_alnum), "{}", s);
    }
}

#[test]
fn generated_names_do_not_collide() {
    let mut seen = HashSet::new();
    for _ in 0..10_000 {
        let name = generate_unique_name("orders_test");
        assert!(name.starts_with("orders_test-"));
        assert!(seen.insert(name));
    }
}

#[test]
fn create_status_classification() {
    assert_eq!(PRECONDITION_FAILED, 412);
    assert_eq!(classify_create_status(Some(412)), CreateFailure::AlreadyExists);
    assert_eq!(classify_create_status(Some(500)), CreateFailure::Failed);
    assert_eq!(classify_create_status(Some(401)), CreateFailure::Failed);
    assert_eq!(classify_create_status(None), CreateFailure::Failed);
}

#[test]
fn colliding_database_is_already_exists() {
    let e = CouchError::new("file_exists".to_string(), StatusCode::PRECONDITION_FAILED);
    assert_eq!(classify_create_error(&e), CreateFailure::AlreadyExists);
    let e = CouchError::new("unauthorized".to_string(), StatusCode::UNAUTHORIZED);
    assert_eq!(classify_create_error(&e), CreateFailure::Failed);
}

#[test]
fn create_failure_messages() {
    assert_eq!(
        CreateFailure::AlreadyExists.message("orders_test-abc"),
        "Database orders_test-abc already exists and must be manually removed."
    );
    assert_eq!(
        CreateFailure::Failed.message("orders_test-abc"),
        "Error while creating new database orders_test-abc"
    );
}

#[test]
fn teardown_outcomes() {
    assert_eq!(teardown_outcome(&Ok(true)), TeardownOutcome::Removed);
    assert_eq!(teardown_outcome(&Ok(false)), TeardownOutcome::NotRemoved);
    let e = CouchError::new("boom".to_string(), StatusCode::INTERNAL_SERVER_ERROR);
    assert_eq!(teardown_outcome(&Err(e)), TeardownOutcome::Failed);
    assert!(TeardownOutcome::Failed.is_error());
    assert!(!TeardownOutcome::Removed.is_error());
    assert!(!TeardownOutcome::NotRemoved.is_error());
    assert_eq!(TeardownOutcome::Removed.message("d"), "Cleaned up database d");
    assert_eq!(TeardownOutcome::NotRemoved.message("d"), "Failed to clean up database d");
    assert_eq!(TeardownOutcome::Failed.message("d"), "Error while cleaning up d");
}

#[test]
fn signal_raise_is_seen_by_derived_handles() {
    let mut root = CancellationSignal::new();
    let child = root.derive();
    assert!(!root.is_raised());
    assert!(!child.is_raised());
    root.raise();
    assert!(root.is_raised());
    assert!(child.is_raised());
}

#[test]
fn raising_twice_has_no_further_effect() {
    let mut root = CancellationSignal::new();
    let child = root.derive();
    root.raise();
    root.raise();
    assert!(root.is_raised());
    assert!(child.is_raised());
}

#[test]
fn release_without_writes_destroys_once() {
    let mut owner = OwnerState::new();
    let mut watcher = WatcherState::new();
    assert_eq!(watcher.poll(false), WatcherAction::Sleep);
    assert_eq!(owner.release(), OwnerAction::RaiseRequested);
    assert_eq!(owner.poll(false), OwnerAction::Sleep);
    assert_eq!(watcher.poll(true), WatcherAction::Destroy);
    assert_eq!(watcher, WatcherState::Destroying);
    assert_eq!(watcher.destroy_returned(TeardownOutcome::Removed), WatcherAction::RaiseComplete);
    assert_eq!(watcher, WatcherState::Done);
    assert_eq!(owner.poll(true), OwnerAction::Return);
    assert_eq!(owner, OwnerState::Released);
}

#[test]
fn failed_destroy_still_completes() {
    let mut owner = OwnerState::new();
    let mut watcher = WatcherState::new();
    owner.release();
    assert_eq!(watcher.poll(true), WatcherAction::Destroy);
    assert_eq!(watcher.destroy_returned(TeardownOutcome::Failed), WatcherAction::RaiseComplete);
    assert_eq!(owner.poll(true), OwnerAction::Return);
}

#[test]
fn connect_accepts_a_server_uri() {
    let cfg = TestRepoConfig::new("http://localhost:5984", "admin", "secret", "orders_test");
    assert!(cfg.connect().is_ok());
    let cfg = TestRepoConfig::new("HTTP://localhost:5984", "admin", "secret", "orders_test");
    assert!(cfg.connect().is_ok());
}

#[test]
fn suffix_from_bytes_lowercases_each_byte() {
    assert_eq!(suffix_from_bytes(&b"AbC09xYZ".to_vec()), "abc09xyz");
    assert_eq!(suffix_from_bytes(&Vec::new()), "");
}

#[test]
fn uri_scheme_checks() {
    assert!(starts_with_ignoring_case_exec("http://localhost", "http://"));
    assert!(starts_with_ignoring_case_exec("HtTp://localhost", "http://"));
    assert!(!starts_with_ignoring_case_exec("http", "http://"));
    assert!(!starts_with_ignoring_case_exec("httq://", "http://"));
    assert!(starts_with_ignoring_case_exec("abc", ""));
    assert!(is_http_uri_exec("http://localhost:5984"));
    assert!(is_http_uri_exec("https://db.example.com"));
    assert!(!is_http_uri_exec("mailto:a@b"));
    assert!(!is_http_uri_exec("data:text/plain,Stuff"));
    assert!(is_http_uri_exec("HTTP://localhost"));
    assert!(is_http_uri_exec("Https://localhost"));
    assert!(!is_http_uri_exec("http:/localhost"));
}

#[test]
fn connect_refuses_a_non_http_uri() {
    let cfg = TestRepoConfig::new("mailto:a@b", "admin", "secret", "orders_test");
    assert!(matches!(cfg.connect(), Err(ConnectError::UnsupportedUri)));
    let cfg = TestRepoConfig::new("data:text/plain,Stuff", "admin", "secret", "orders_test");
    assert!(matches!(cfg.connect(), Err(ConnectError::UnsupportedUri)));
}

#[test]
fn connect_reports_a_malformed_http_uri() {
    let cfg = TestRepoConfig::new("http://", "admin", "secret", "orders_test");
    assert!(matches!(cfg.connect(), Err(ConnectError::Store(_))));
}
