//! The event payloads exchanged between the login flow and the UI layer.
//!
//! Each payload names the channel it travels on.  The transport itself (an
//! application-wide event bus) lives outside the library; the library only
//! decides which payload is produced and when.

use vstd::prelude::*;

verus! {

/// A payload with a fixed channel name on the application's event bus.
pub trait Event {
    /// The channel this payload is dispatched on.
    fn event_name() -> (r: &'static str);
}

/// The flow failed; carries a human-readable reason.
pub struct OAuthFailed {
    pub message: String,
}

impl Event for OAuthFailed {
    fn event_name() -> (r: &'static str) {
        "event::oauth_failed"
    }
}

/// The flow completed; carries the bearer token.
pub struct OAuthLoggedIn {
    pub access_token: String,
}

impl Event for OAuthLoggedIn {
    fn event_name() -> (r: &'static str) {
        "event::oauth_logged_in"
    }
}

/// The user dismissed the login surface before any callback arrived.
pub struct LoginWindowClosed {}

impl Event for LoginWindowClosed {
    fn event_name() -> (r: &'static str) {
        "event::login_window_closed"
    }
}

} // verus!
