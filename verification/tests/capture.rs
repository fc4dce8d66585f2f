use snippet_capture::capture::{capture_selection, CaptureError};
use snippet_capture::platform::{get_active_app, get_platform, get_selected_text, OsFamily};

#[test]
fn capture_without_selection_reports_no_selection() {
    let r = capture_selection(None, None, OsFamily::Linux);
    assert_eq!(r.unwrap_err(), CaptureError::NoSelection);
}

#[test]
fn capture_of_blank_selection_reports_empty_selection() {
    let r = capture_selection(Some("   \n\t".to_string()), None, OsFamily::MacOs);
    assert_eq!(r.unwrap_err(), CaptureError::EmptySelection);
}

#[test]
fn capture_success_builds_full_payload() {
    let r = capture_selection(
        Some("fn main() {}\n".to_string()),
        Some("  Terminal \n".to_string()),
        OsFamily::MacOs,
    );
    let p = r.unwrap();
    assert_eq!(p.text, "fn main() {}\n");
    assert!(p.is_code);
    assert_eq!(p.source_app.as_deref(), Some("Terminal"));
    assert_eq!(p.platform, "macos");
    assert!(!p.text.trim().is_empty());
    assert!(chrono::DateTime::parse_from_rfc3339(&p.timestamp).is_ok());
}

#[test]
fn capture_success_with_prose_and_no_app() {
    let r = capture_selection(
        Some("Just some words worth keeping.".to_string()),
        Some("   ".to_string()),
        OsFamily::Windows,
    );
    let p = r.unwrap();
    assert!(!p.is_code);
    assert_eq!(p.source_app, None);
    assert_eq!(p.platform, "windows");
    assert!(chrono::DateTime::parse_from_rfc3339(&p.timestamp).is_ok());
}

#[test]
fn error_messages_name_the_failure() {
    assert_eq!(
        CaptureError::NoSelection.message(),
        "No text selected or clipboard is empty"
    );
    assert_eq!(CaptureError::EmptySelection.message(), "Selected text is empty");
}

#[test]
fn platform_identifiers_are_fixed() {
    assert_eq!(get_platform(OsFamily::MacOs), "macos");
    assert_eq!(get_platform(OsFamily::Windows), "windows");
    assert_eq!(get_platform(OsFamily::Linux), "linux");
    assert_eq!(get_platform(OsFamily::Other), "unknown");
}

#[test]
fn active_app_is_trimmed_or_absent() {
    assert_eq!(get_active_app(Some("  Finder \n".to_string())).as_deref(), Some("Finder"));
    assert_eq!(get_active_app(Some("   \n".to_string())), None);
    assert_eq!(get_active_app(None), None);
}

#[test]
fn selected_text_is_kept_verbatim_or_absent() {
    assert_eq!(
        get_selected_text(Some("  kept as is  ".to_string())).as_deref(),
        Some("  kept as is  ")
    );
    assert_eq!(get_selected_text(Some("\t \n".to_string())), None);
    assert_eq!(get_selected_text(None), None);
}
