//! The per-attempt terminal flags.
//!
//! Three independent flip-once booleans are shared between the callback
//! server's accept loop and the event layer.  Each one only ever moves from
//! `false` to `true` during an attempt; `reset` starts a fresh attempt.  The
//! server loop stops as soon as any of them is set.

use vstd::prelude::*;

verus! {

/// The terminal flags of one login attempt.
pub struct OauthState {
    /// The login surface was closed, or the flow failed, before a token
    /// arrived.
    pub login_closed_prematurely: bool,
    /// A token was delivered and the flow completed.
    pub oauth_flow_completed: bool,
    /// The flow reported an explicit failure.
    pub oauth_flow_failed: bool,
}

/// Whether any terminal flag is set, so the server loop must exit.
pub open spec fn terminated(s: OauthState) -> bool {
    s.login_closed_prematurely || s.oauth_flow_completed || s.oauth_flow_failed
}

impl OauthState {
    /// Clears every flag at the start of a new login attempt.
    pub fn reset(&mut self)
        ensures
            !final(self).login_closed_prematurely,
            !final(self).oauth_flow_completed,
            !final(self).oauth_flow_failed,
    {
        self.login_closed_prematurely = false;
        self.oauth_flow_completed = false;
        self.oauth_flow_failed = false;
    }

    /// Flips the closed-prematurely flag to `true`; the other flags keep
    /// their values.
    pub fn set_login_closed_prematurely(&mut self)
        ensures
            final(self).login_closed_prematurely,
            final(self).oauth_flow_completed == old(self).oauth_flow_completed,
            final(self).oauth_flow_failed == old(self).oauth_flow_failed,
    {
        self.login_closed_prematurely = true;
    }

    /// Flips the flow-completed flag to `true`; the other flags keep their
    /// values.
    pub fn set_oauth_flow_completed(&mut self)
        ensures
            final(self).oauth_flow_completed,
            final(self).login_closed_prematurely == old(self).login_closed_prematurely,
            final(self).oauth_flow_failed == old(self).oauth_flow_failed,
    {
        self.oauth_flow_completed = true;
    }

    /// Flips the flow-failed flag to `true`; the other flags keep their
    /// values.
    pub fn set_oauth_flow_failed(&mut self)
        ensures
            final(self).oauth_flow_failed,
            final(self).login_closed_prematurely == old(self).login_closed_prematurely,
            final(self).oauth_flow_completed == old(self).oauth_flow_completed,
    {
        self.oauth_flow_failed = true;
    }

    /// Whether the server's accept loop must exit: some terminal flag is
    /// set.  The loop polls this between bounded accept timeouts, so a flag
    /// flipped by the event layer stops the server within one poll interval.
    pub fn should_stop(&self) -> (r: bool)
        ensures
            r == terminated(*self),
    {
        self.login_closed_prematurely || self.oauth_flow_completed || self.oauth_flow_failed
    }
}

impl Default for OauthState {
    /// A fresh state with no terminal flag set.
    fn default() -> (s: Self)
        ensures
            !s.login_closed_prematurely,
            !s.oauth_flow_completed,
            !s.oauth_flow_failed,
    {
        OauthState {
            login_closed_prematurely: false,
            oauth_flow_completed: false,
            oauth_flow_failed: false,
        }
    }
}

} // verus!
