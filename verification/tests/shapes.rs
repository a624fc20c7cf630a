use clipboard_sync::config::{app_name, default_host, log_level_for_verbosity, Type};
use clipboard_sync::error::ClipboardError;
use clipboard_sync::protocol::{clipboard_response, get_contents, push_response, ClipboardUpdate};

#[test]
fn get_contents_unwraps_the_body() {
    let update = ClipboardUpdate { contents: "payload".to_owned() };
    assert_eq!(get_contents(update), "payload");
}

#[test]
fn long_poll_response_reports_whether_content_arrived() {
    let some = clipboard_response(Some("news".to_owned()));
    assert!(some.updated);
    assert_eq!(some.contents.as_deref(), Some("news"));

    let none = clipboard_response(None);
    assert!(!none.updated);
    assert!(none.contents.is_none());
}

#[test]
fn push_response_names_each_outcome() {
    let ok = push_response(&Ok(()));
    assert!(ok.success);
    assert!(ok.error.is_none());

    let duplicate = push_response(&Err(ClipboardError::DuplicatedValue));
    assert!(!duplicate.success);
    assert_eq!(duplicate.error.as_deref(), Some("Duplicated value"));

    for fault in [ClipboardError::Timeout, ClipboardError::EmptyValue, ClipboardError::Other] {
        let response = push_response(&Err(fault));
        assert!(!response.success);
        assert_eq!(response.error.as_deref(), Some("Internal error"));
    }
}

#[test]
fn log_level_follows_verbosity_count() {
    assert_eq!(log_level_for_verbosity(0), "warn");
    assert_eq!(log_level_for_verbosity(1), "info");
    assert_eq!(log_level_for_verbosity(2), "debug");
    assert_eq!(log_level_for_verbosity(3), "trace");
    assert_eq!(log_level_for_verbosity(100), "trace");
}

#[test]
fn role_defaults() {
    assert_eq!(app_name(&Type::Client), "clipboard-sync");
    assert_eq!(app_name(&Type::Server), "clipboard-sync-server");
    assert_eq!(default_host(&Type::Client), "localhost");
    assert_eq!(default_host(&Type::Server), "0.0.0.0");
}
