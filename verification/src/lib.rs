//! Hotkey-driven text capture: a classifier that labels captured text as
//! code or prose, the platform-facing selection helpers, the capture
//! pipeline that builds a tagged payload, and the hotkey controller's
//! decision logic.

pub mod capture;
pub mod classifier;
pub mod hotkey;
pub mod platform;
pub mod text;
