//! The one-shot event coordinator.
//!
//! One login attempt can end for three racing reasons: the callback server
//! saw a token (success), the callback server or the code exchange reported
//! a failure, or the user closed the login surface.  Whichever reason fires
//! first must be the only one the UI layer ever hears about.  The arbiter is
//! a take-once claim: the first trigger consumes it, flips the matching
//! terminal flag (which stops the callback server), and yields the single
//! outcome to deliver; every later trigger finds the claim consumed and does
//! nothing.

use vstd::prelude::*;
use vstd::string::StringExecFns;

use crate::events::{LoginWindowClosed, OAuthFailed, OAuthLoggedIn};
use crate::state::{terminated, OauthState};

verus! {

/// A terminal trigger: one of the three racing reasons an attempt can end.
pub enum Trigger {
    /// The callback carried a token, or the code exchange succeeded.
    Success(OAuthLoggedIn),
    /// A failure was reported, with a reason.
    Failure(OAuthFailed),
    /// The user closed the login surface before any callback.
    WindowClosed(LoginWindowClosed),
}

/// The mathematical shape of a trigger.
pub enum TriggerView {
    Success { access_token: Seq<char> },
    Failure { message: Seq<char> },
    WindowClosed,
}

impl View for Trigger {
    type V = TriggerView;

    open spec fn view(&self) -> TriggerView {
        match self {
            Trigger::Success(e) => (TriggerView::Success { access_token: e.access_token@ }),
            Trigger::Failure(e) => (TriggerView::Failure { message: e.message@ }),
            Trigger::WindowClosed(_) => TriggerView::WindowClosed,
        }
    }
}

/// The single outcome surfaced to the UI layer for one attempt.
pub enum OAuthOutcome {
    /// Deliver the token on the logged-in channel.
    Authenticated(OAuthLoggedIn),
    /// Deliver the reason on the failed channel.
    Failed(OAuthFailed),
}

/// The mathematical shape of an outcome.
pub enum OutcomeView {
    Authenticated { access_token: Seq<char> },
    Failed { message: Seq<char> },
}

impl View for OAuthOutcome {
    type V = OutcomeView;

    open spec fn view(&self) -> OutcomeView {
        match self {
            OAuthOutcome::Authenticated(e) => (OutcomeView::Authenticated {
                access_token: e.access_token@,
            }),
            OAuthOutcome::Failed(e) => (OutcomeView::Failed { message: e.message@ }),
        }
    }
}

/// The outcome a trigger produces when it wins the claim.
pub open spec fn outcome_of(t: TriggerView) -> OutcomeView {
    match t {
        TriggerView::Success { access_token } => (OutcomeView::Authenticated { access_token }),
        TriggerView::Failure { message } => (OutcomeView::Failed { message }),
        TriggerView::WindowClosed => (OutcomeView::Failed {
            message: "Login window closed prematurely"@,
        }),
    }
}

/// The terminal flags after a winning trigger: success completes the flow,
/// a failure or a closed window marks the attempt closed prematurely.
pub open spec fn flags_after(s: OauthState, t: TriggerView) -> OauthState {
    match t {
        TriggerView::Success { .. } => OauthState { oauth_flow_completed: true, ..s },
        TriggerView::Failure { .. } => OauthState { login_closed_prematurely: true, ..s },
        TriggerView::WindowClosed => OauthState { login_closed_prematurely: true, ..s },
    }
}

/// One step of the claim protocol: a trigger that finds the claim pending
/// consumes it and yields its outcome; any other trigger yields nothing,
/// and the claim stays consumed.
pub open spec fn spec_fire(pending: bool, t: TriggerView) -> (bool, Option<OutcomeView>) {
    if pending {
        (false, Some(outcome_of(t)))
    } else {
        (false, None)
    }
}

/// The take-once claim shared by the three triggers of one attempt.
pub struct Coordinator {
    /// Whether the claim is still up for grabs.  Once consumed it stays
    /// consumed until a new attempt builds a new coordinator.
    pub pending: bool,
}

impl Coordinator {
    /// A fresh claim for a new attempt.
    pub fn new() -> (c: Self)
        ensures
            c.pending,
    {
        Coordinator { pending: true }
    }

    /// Lets a trigger race for the claim.
    ///
    /// The first trigger of an attempt consumes the claim, flips the
    /// terminal flag that stops the callback server, and returns the one
    /// outcome to deliver.  Any trigger that finds the claim consumed
    /// changes nothing and returns nothing, however many arrive and in
    /// whatever order.
    pub fn fire(&mut self, state: &mut OauthState, t: Trigger) -> (r: Option<OAuthOutcome>)
        ensures
            final(self).pending == spec_fire(old(self).pending, t@).0,
            (match (r, spec_fire(old(self).pending, t@).1) {
                (Some(o), Some(v)) => o@ == v,
                (None, None) => true,
                _ => false,
            }),
            old(self).pending ==> *final(state) == flags_after(*old(state), t@),
            !old(self).pending ==> *final(state) == *old(state),
    {
        if !self.pending {
            return None;
        }
        self.pending = false;
        match t {
            Trigger::Success(e) => {
                state.set_oauth_flow_completed();
                Some(OAuthOutcome::Authenticated(e))
            },
            Trigger::Failure(e) => {
                state.set_login_closed_prematurely();
                Some(OAuthOutcome::Failed(e))
            },
            Trigger::WindowClosed(_) => {
                state.set_login_closed_prematurely();
                Some(
                    OAuthOutcome::Failed(
                        OAuthFailed {
                            message: String::from_str("Login window closed prematurely"),
                        },
                    ),
                )
            },
        }
    }
}

/// How many outcomes a run of triggers delivers, starting from a claim that
/// is pending or already consumed: each trigger takes one claim step, and
/// only a step that yields an outcome counts.
pub open spec fn deliveries(pending: bool, ts: Seq<TriggerView>) -> nat
    decreases ts.len(),
{
    if ts.len() == 0 {
        0
    } else {
        let step = spec_fire(pending, ts[0]);
        (if step.1 is Some {
            1nat
        } else {
            0nat
        }) + deliveries(step.0, ts.drop_first())
    }
}

/// A consumed claim delivers nothing, whatever still arrives.
pub proof fn lemma_consumed_claim_delivers_nothing(ts: Seq<TriggerView>)
    ensures
        deliveries(false, ts) == 0,
    decreases ts.len(),
{
    if ts.len() > 0 {
        lemma_consumed_claim_delivers_nothing(ts.drop_first());
    }
}

/// Exactly-once delivery: an attempt that sees at least one terminal
/// trigger delivers exactly one outcome to the UI layer, for every order
/// and number of racing triggers.
pub proof fn lemma_exactly_one_delivery(ts: Seq<TriggerView>)
    requires
        ts.len() > 0,
    ensures
        deliveries(true, ts) == 1,
{
    lemma_consumed_claim_delivers_nothing(ts.drop_first());
}

/// Whichever trigger wins the claim, it leaves the attempt terminated, so
/// the callback server's polling loop observes a set flag and exits within
/// one poll interval.
pub proof fn lemma_winning_trigger_terminates(s: OauthState, t: TriggerView)
    ensures
        terminated(flags_after(s, t)),
{
}

} // verus!
