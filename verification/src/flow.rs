//! The flow orchestrator's decisions.
//!
//! A login attempt runs in one of two modes.  The implicit grant resets the
//! terminal flags, walks a fixed list of candidate ports until one binds,
//! starts the callback server there and opens the login surface on the
//! provider's authorize URL.  The authorization-code grant instead makes
//! one direct exchange against the provider's token endpoint and turns its
//! reply into a single terminal trigger.  Binding, windows and the network
//! round trip happen outside the library; every choice in between is
//! decided here.

use vstd::prelude::*;
use vstd::string::StringExecFns;

use crate::coordinator::{Trigger, TriggerView};
use crate::events::{OAuthFailed, OAuthLoggedIn};
use crate::strutil::{spec_dec, str_eq, u16_to_dec};

verus! {

/// The scopes requested from the provider.
pub const SCOPES: &'static str =
    "channel:read:redemptions channel:manage:redemptions user:read:email";

/// How a login attempt talks to the provider.
pub enum LoginMode {
    /// The token arrives in the redirect URL's fragment.
    ImplicitGrant,
    /// The token is fetched in one direct exchange.
    AuthorizationCode,
}

/// The mode a configuration string selects: `code` picks the direct
/// exchange, anything else falls back to the implicit grant.
pub open spec fn spec_login_mode(mode: Seq<char>) -> LoginMode {
    if mode == "code"@ {
        LoginMode::AuthorizationCode
    } else {
        LoginMode::ImplicitGrant
    }
}

/// Selects the login mode from the configured mode string.
pub fn login_mode_of(mode: &str) -> (m: LoginMode)
    ensures
        m == spec_login_mode(mode@),
{
    if str_eq(mode, "code") {
        LoginMode::AuthorizationCode
    } else {
        LoginMode::ImplicitGrant
    }
}

/// The fixed, ordered list of candidate ports for the callback server.
pub open spec fn spec_candidate_ports() -> Seq<u16> {
    seq![
        17041u16,
        27741u16,
        44927u16,
        41443u16,
        56612u16,
        58121u16,
        53147u16,
        15099u16,
        64380u16,
        32097u16,
    ]
}

/// Builds the candidate port list the implicit grant walks in order.
pub fn candidate_ports() -> (r: Vec<u16>)
    ensures
        r@ == spec_candidate_ports(),
{
    let mut v: Vec<u16> = Vec::new();
    v.push(17041);
    v.push(27741);
    v.push(44927);
    v.push(41443);
    v.push(56612);
    v.push(58121);
    v.push(53147);
    v.push(15099);
    v.push(64380);
    v.push(32097);
    proof {
        assert(v@ =~= spec_candidate_ports());
    }
    v
}

/// Where one implicit-grant attempt stands.
#[derive(Clone, Copy, PartialEq, Eq, Structural, Debug)]
pub enum AttemptPhase {
    /// No attempt is under way: none was started, or the candidate list ran
    /// out without a bind, in which case no server runs, no login surface
    /// opens, and nothing is delivered.
    Idle,
    /// The next bind will try the candidate at this position.
    AttemptingPort { index: usize },
    /// A port bound; the callback server runs there until a terminal flag
    /// stops it.
    Serving { port: u16 },
}

/// Starts walking the candidate list from its head.
pub fn begin_attempt() -> (p: AttemptPhase)
    ensures
        p == (AttemptPhase::AttemptingPort { index: 0 }),
{
    AttemptPhase::AttemptingPort { index: 0 }
}

/// Advances an attempt after one bind try on `candidates[index]`.  A
/// successful bind starts serving on that port; a failed one moves to the
/// next candidate, or back to idle — with no server and no notification —
/// when the list is exhausted.
pub fn port_attempt_step(candidates: &Vec<u16>, index: usize, bound: bool) -> (p: AttemptPhase)
    requires
        index < candidates@.len(),
    ensures
        bound ==> p == (AttemptPhase::Serving { port: candidates@[index as int] }),
        !bound && index + 1 < candidates@.len() ==> p == (AttemptPhase::AttemptingPort {
            index: (index + 1) as usize,
        }),
        !bound && index + 1 == candidates@.len() ==> p == AttemptPhase::Idle,
{
    let n = candidates.len();
    if bound {
        AttemptPhase::Serving { port: candidates[index] }
    } else if index + 1 < n {
        AttemptPhase::AttemptingPort { index: index + 1 }
    } else {
        AttemptPhase::Idle
    }
}

/// The redirect URI the provider sends the browser back to.
pub open spec fn spec_redirect_uri(port: nat) -> Seq<char> {
    "http://localhost:"@ + spec_dec(port) + "/callback"@
}

/// Builds the redirect URI for the callback server's port.
pub fn build_redirect_uri(port: u16) -> (r: String)
    ensures
        r@ == spec_redirect_uri(port as nat),
{
    let mut s = String::from_str("http://localhost:");
    s.append(u16_to_dec(port).as_str());
    s.append("/callback");
    s
}

/// The provider's authorize URL the login surface opens for the implicit
/// grant.
pub open spec fn spec_login_url(
    oauth_base: Seq<char>,
    client_id: Seq<char>,
    port: nat,
    scope: Seq<char>,
) -> Seq<char> {
    oauth_base + "/authorize?client_id="@ + client_id + "&redirect_uri="@ + spec_redirect_uri(port)
        + "&response_type=token&scope="@ + scope + "&force_verify=true"@
}

/// Builds the authorize URL for the implicit grant.
pub fn build_login_url(oauth_base: &str, client_id: &str, port: u16, scope: &str) -> (r: String)
    ensures
        r@ == spec_login_url(oauth_base@, client_id@, port as nat, scope@),
{
    let mut s = oauth_base.to_owned();
    s.append("/authorize?client_id=");
    s.append(client_id);
    s.append("&redirect_uri=");
    s.append(build_redirect_uri(port).as_str());
    s.append("&response_type=token&scope=");
    s.append(scope);
    s.append("&force_verify=true");
    s
}

} // verus!
