use snippet_capture::capture::{capture_selection, CaptureError};
use snippet_capture::hotkey::{
    default_hotkey, hotkey_label, outbound_event, recovery_dialog_message, recovery_dialog_title,
    settings_deep_link, should_capture, CaptureGate, HotkeyRegistrationState, KeyPhase,
    OutboundEvent,
};
use snippet_capture::platform::OsFamily;

#[test]
fn default_hotkey_per_family() {
    let mac = default_hotkey(OsFamily::MacOs);
    assert!(mac.super_mod && mac.alt && !mac.ctrl);
    assert_eq!(mac.key, 'S');
    let other = default_hotkey(OsFamily::Linux);
    assert!(other.ctrl && other.alt && !other.super_mod);
    assert_eq!(other.key, 'S');
    assert_eq!(default_hotkey(OsFamily::Windows), default_hotkey(OsFamily::Linux));
}

#[test]
fn hotkey_labels_per_family() {
    assert_eq!(hotkey_label(OsFamily::MacOs), "Cmd+Option+S");
    assert_eq!(hotkey_label(OsFamily::Windows), "Ctrl+Alt+S");
    assert_eq!(hotkey_label(OsFamily::Linux), "Ctrl+Alt+S");
}

#[test]
fn recovery_dialog_wording() {
    assert_eq!(recovery_dialog_title(), "Permission Required or Conflict");
    assert_eq!(
        recovery_dialog_message(OsFamily::MacOs),
        "Global Hotkey Failed (Cmd+Option+S)"
    );
    assert_eq!(
        recovery_dialog_message(OsFamily::Linux),
        "Global Hotkey Failed (Ctrl+Alt+S)"
    );
}

#[test]
fn settings_deep_link_only_where_supported() {
    let url = settings_deep_link(OsFamily::MacOs, true).unwrap();
    assert_eq!(
        url,
        "x-apple.systempreferences:com.apple.preference.security?Privacy_Accessibility"
    );
    assert_eq!(settings_deep_link(OsFamily::MacOs, false), None);
    assert_eq!(settings_deep_link(OsFamily::Linux, true), None);
    assert_eq!(settings_deep_link(OsFamily::Windows, true), None);
}

#[test]
fn registration_state_transitions_once() {
    let s = HotkeyRegistrationState::Unregistered;
    let ok = s.on_registration_result(true);
    assert_eq!(ok, HotkeyRegistrationState::Registered);
    assert!(ok.triggers_active());
    assert!(!ok.needs_recovery_dialog());
    let failed = s.on_registration_result(false);
    assert_eq!(failed, HotkeyRegistrationState::RegistrationFailed);
    assert!(!failed.triggers_active());
    assert!(failed.needs_recovery_dialog());
}

#[test]
fn released_phase_triggers_no_capture_and_no_event() {
    assert!(should_capture(KeyPhase::Pressed));
    assert!(!should_capture(KeyPhase::Released));
    // The controller runs a capture and emits an event only behind this
    // gate, so a released-phase event reaches neither.
    let mut events: Vec<OutboundEvent> = Vec::new();
    if should_capture(KeyPhase::Released) {
        events.push(outbound_event(capture_selection(None, None, OsFamily::Linux)));
    }
    assert!(events.is_empty());
}

#[test]
fn capture_gate_serializes_captures() {
    let mut gate = CaptureGate::new();
    assert!(gate.try_begin());
    // While one capture runs, a rapid second trigger is refused.
    assert!(!gate.try_begin());
    assert!(!gate.try_begin());
    gate.finish();
    assert!(gate.try_begin());
    gate.finish();
}

#[test]
fn outbound_event_per_outcome() {
    let ok = capture_selection(Some("let x = 1;".to_string()), None, OsFamily::Other);
    match outbound_event(ok) {
        OutboundEvent::Captured(p) => {
            assert_eq!(p.text, "let x = 1;");
            assert!(p.is_code);
            assert_eq!(p.platform, "unknown");
        }
        OutboundEvent::CaptureFailed(_) => panic!("expected a captured event"),
    }
    let err = capture_selection(None, None, OsFamily::Other);
    match outbound_event(err) {
        OutboundEvent::Captured(_) => panic!("expected a failure event"),
        OutboundEvent::CaptureFailed(m) => {
            assert_eq!(m, "No text selected or clipboard is empty");
        }
    }
}

#[test]
fn event_channels_are_fixed() {
    let ok = capture_selection(Some("{ a; }".to_string()), None, OsFamily::Linux);
    let captured = outbound_event(ok);
    assert_eq!(captured.channel(), "snippet-captured");
    let failed = outbound_event(Err(CaptureError::EmptySelection));
    assert_eq!(failed.channel(), "snippet-capture-error");
}
