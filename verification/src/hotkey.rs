//! The hotkey controller's decision logic: the default key combination,
//! the registration state machine with its one-shot recovery dialog, the
//! trigger-phase gate, the serialization gate for captures, and the
//! mapping from capture outcomes to outbound events.

use vstd::prelude::*;
use vstd::string::StringExecFns;
use crate::capture::{error_message_spec, CaptureError, CapturePayload};
use crate::platform::OsFamily;

verus! {

/// The phase of one physical key event.
#[derive(Clone, Copy, Debug, PartialEq, Eq, Structural)]
pub enum KeyPhase {
    Pressed,
    Released,
}

/// A global key combination: modifiers and one key.
#[derive(Clone, Copy, Debug, PartialEq, Eq, Structural)]
pub struct HotkeyCombo {
    /// The platform's command modifier.
    pub super_mod: bool,
    /// The control modifier.
    pub ctrl: bool,
    /// The alt (option) modifier.
    pub alt: bool,
    /// The triggering key.
    pub key: char,
}

/// The fixed default combination per family: command and option with `S`
/// on the one family, control and alt with `S` on all others.
pub open spec fn default_hotkey_spec(family: OsFamily) -> HotkeyCombo {
    if family is MacOs {
        HotkeyCombo { super_mod: true, ctrl: false, alt: true, key: 'S' }
    } else {
        HotkeyCombo { super_mod: false, ctrl: true, alt: true, key: 'S' }
    }
}

/// The default global key combination for the running family.
pub fn default_hotkey(family: OsFamily) -> (h: HotkeyCombo)
    ensures
        h == default_hotkey_spec(family),
{
    match family {
        OsFamily::MacOs => HotkeyCombo { super_mod: true, ctrl: false, alt: true, key: 'S' },
        _ => HotkeyCombo { super_mod: false, ctrl: true, alt: true, key: 'S' },
    }
}

/// The display name of the default combination per family.
pub open spec fn hotkey_label_spec(family: OsFamily) -> Seq<char> {
    if family is MacOs {
        "Cmd+Option+S"@
    } else {
        "Ctrl+Alt+S"@
    }
}

/// The display name of the default combination.
pub fn hotkey_label(family: OsFamily) -> (r: String)
    ensures
        r@ == hotkey_label_spec(family),
{
    match family {
        OsFamily::MacOs => String::from_str("Cmd+Option+S"),
        _ => String::from_str("Ctrl+Alt+S"),
    }
}

/// The lifecycle of the process-wide hotkey registration.
#[derive(Clone, Copy, Debug, PartialEq, Eq, Structural)]
pub enum HotkeyRegistrationState {
    Unregistered,
    Registered,
    RegistrationFailed,
}

impl HotkeyRegistrationState {
    /// The single transition out of `Unregistered`, taken once at startup
    /// with the outcome of the OS registration call; no later automatic
    /// transition exists.
    pub fn on_registration_result(self, granted: bool) -> (next: Self)
        requires
            self is Unregistered,
        ensures
            granted ==> next is Registered,
            !granted ==> next is RegistrationFailed,
    {
        if granted {
            HotkeyRegistrationState::Registered
        } else {
            HotkeyRegistrationState::RegistrationFailed
        }
    }

    /// Trigger events are handled exactly in the registered state.
    pub fn triggers_active(&self) -> (r: bool)
        ensures
            r == (*self is Registered),
    {
        match self {
            HotkeyRegistrationState::Registered => true,
            _ => false,
        }
    }

    /// The one-shot recovery dialog is owed exactly in the failed state.
    pub fn needs_recovery_dialog(&self) -> (r: bool)
        ensures
            r == (*self is RegistrationFailed),
    {
        match self {
            HotkeyRegistrationState::RegistrationFailed => true,
            _ => false,
        }
    }
}

/// A capture is started only on the pressed phase of a key event; the
/// released phase of the same physical event starts no capture, so it
/// also emits no event.
pub fn should_capture(phase: KeyPhase) -> (r: bool)
    ensures
        r == (phase is Pressed),
{
    match phase {
        KeyPhase::Pressed => true,
        KeyPhase::Released => false,
    }
}

/// The title of the one-shot recovery dialog.
pub fn recovery_dialog_title() -> (r: String)
    ensures
        r@ == "Permission Required or Conflict"@,
{
    String::from_str("Permission Required or Conflict")
}

/// The message of the one-shot recovery dialog, naming the combination
/// whose registration failed.
pub fn recovery_dialog_message(family: OsFamily) -> (r: String)
    ensures
        r@ == "Global Hotkey Failed ("@ + hotkey_label_spec(family) + ")"@,
{
    let mut m = String::from_str("Global Hotkey Failed (");
    let label = hotkey_label(family);
    m.append(label.as_str());
    m.append(")");
    proof {
        assert(m@ =~= "Global Hotkey Failed ("@ + hotkey_label_spec(family) + ")"@);
    }
    m
}

/// The deep link into the OS privacy settings, owed exactly when the user
/// chose to open settings and the running family has such a panel; the
/// choice is a no-op everywhere else.
pub fn settings_deep_link(family: OsFamily, open_chosen: bool) -> (r: Option<String>)
    ensures
        (r is Some) <==> (open_chosen && family is MacOs),
        r matches Some(u) ==> u@
            == "x-apple.systempreferences:com.apple.preference.security?Privacy_Accessibility"@,
{
    if open_chosen {
        match family {
            OsFamily::MacOs => Option::Some(
                String::from_str(
                    "x-apple.systempreferences:com.apple.preference.security?Privacy_Accessibility",
                ),
            ),
            _ => Option::None,
        }
    } else {
        Option::None
    }
}

/// What the controller emits after handling one trigger.
pub enum OutboundEvent {
    /// Goes out on the `snippet-captured` channel with the payload.
    Captured(CapturePayload),
    /// Goes out on the `snippet-capture-error` channel with the message.
    CaptureFailed(String),
}

/// The channel name each event goes out on.
pub open spec fn channel_spec(e: OutboundEvent) -> Seq<char> {
    match e {
        OutboundEvent::Captured(_) => "snippet-captured"@,
        OutboundEvent::CaptureFailed(_) => "snippet-capture-error"@,
    }
}

impl OutboundEvent {
    /// The channel name this event goes out on.
    pub fn channel(&self) -> (r: &str)
        ensures
            r@ == channel_spec(*self),
    {
        match self {
            OutboundEvent::Captured(_) => "snippet-captured",
            OutboundEvent::CaptureFailed(_) => "snippet-capture-error",
        }
    }
}

/// The event owed for one capture outcome: the payload on success, the
/// failure kind's human-readable message otherwise.
pub fn outbound_event(result: Result<CapturePayload, CaptureError>) -> (e: OutboundEvent)
    ensures
        result matches Ok(p) ==> (e matches OutboundEvent::Captured(q) && q == p),
        result matches Err(k) ==> (e matches OutboundEvent::CaptureFailed(m) && m@
            == error_message_spec(k)),
{
    match result {
        Result::Ok(p) => OutboundEvent::Captured(p),
        Result::Err(k) => OutboundEvent::CaptureFailed(k.message()),
    }
}

/// The serialization gate for captures: the capture worker asks it before
/// starting, so at most one capture is in flight at a time.
pub struct CaptureGate {
    /// Whether a capture is running now.
    pub in_flight: bool,
}

impl CaptureGate {
    /// A fresh gate with no capture in flight.
    pub fn new() -> (g: Self)
        ensures
            !g.in_flight,
    {
        CaptureGate { in_flight: false }
    }

    /// Ask to start a capture: granted exactly when none is in flight,
    /// after which one is.
    pub fn try_begin(&mut self) -> (granted: bool)
        ensures
            granted == !old(self).in_flight,
            final(self).in_flight,
    {
        if self.in_flight {
            false
        } else {
            self.in_flight = true;
            true
        }
    }

    /// End the running capture.
    pub fn finish(&mut self)
        requires
            old(self).in_flight,
        ensures
            !final(self).in_flight,
    {
        self.in_flight = false;
    }
}

/// Mutual exclusion for captures: a second begin is refused.
pub proof fn lemma_captures_serialized(g: CaptureGate, granted: bool)
    requires
        g.in_flight,
        granted == !g.in_flight,
    ensures
        !granted,
{
}

} // verus!
