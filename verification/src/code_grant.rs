//! The authorization-code exchange.
//!
//! In code mode the flow makes one direct request against the provider's
//! token endpoint and turns the reply into a single terminal trigger: a
//! parsed 200 succeeds with its token, anything else fails with a reason
//! that names the provider's status.  The request URL and its parameters
//! are decided here; the network round trip and the JSON decoding of the
//! body happen outside the library and hand back plain values.

use vstd::prelude::*;
use vstd::string::StringExecFns;

use crate::coordinator::{Trigger, TriggerView};
use crate::events::{OAuthFailed, OAuthLoggedIn};
use crate::strutil::{spec_dec, u16_to_dec};

verus! {

/// The parsed body of a successful token exchange.
pub struct CodeResponse {
    pub access_token: String,
    pub refresh_token: String,
    pub expires_in: u32,
    pub scope: Vec<String>,
    pub token_type: String,
}

/// The URL that `url::Url::parse_with_params` builds from a base URL and
/// form-urlencoded query parameters, or nothing when the base does not
/// parse as an absolute URL.
pub uninterp spec fn url_with_params_of(base: Seq<char>, params: Seq<(Seq<char>, Seq<char>)>) -> Option<Seq<char>>;

/// Relies on `url::Url::parse_with_params`: parses the base URL and
/// appends each pair to its query form-urlencoded; the outcome is a
/// function of the base and the pairs alone.
#[verifier::external_body]
fn url_with_params(base: &str, params: &Vec<(String, String)>) -> (r: Option<String>)
    ensures
        r.deep_view() == url_with_params_of(base@, params.deep_view()),
{
    match url::Url::parse_with_params(base, params.iter().map(|p| (p.0.as_str(), p.1.as_str()))) {
        Ok(u) => Some(u.as_str().to_string()),
        Err(_) => None,
    }
}

/// The token endpoint under the provider's OAuth base URL.
pub open spec fn spec_token_endpoint(oauth_base: Seq<char>) -> Seq<char> {
    oauth_base + "/authorize"@
}

/// The query parameters of one exchange, in the order they are sent.
pub open spec fn spec_code_request_params(
    client_id: Seq<char>,
    client_secret: Seq<char>,
    user_id: Seq<char>,
    scope: Seq<char>,
) -> Seq<(Seq<char>, Seq<char>)> {
    seq![
        ("client_secret"@, client_secret),
        ("client_id"@, client_id),
        ("grant_type"@, "user_token"@),
        ("scope"@, scope),
        ("user_id"@, user_id),
    ]
}

/// Builds the exchange's query parameters from the configured credentials
/// and scope.
pub fn code_request_params(
    client_id: &str,
    client_secret: &str,
    user_id: &str,
    scope: &str,
) -> (r: Vec<(String, String)>)
    ensures
        r.deep_view() == spec_code_request_params(client_id@, client_secret@, user_id@, scope@),
{
    let mut v: Vec<(String, String)> = Vec::new();
    v.push(("client_secret".to_owned(), client_secret.to_owned()));
    v.push(("client_id".to_owned(), client_id.to_owned()));
    v.push(("grant_type".to_owned(), "user_token".to_owned()));
    v.push(("scope".to_owned(), scope.to_owned()));
    v.push(("user_id".to_owned(), user_id.to_owned()));
    proof {
        assert(v.deep_view() =~= spec_code_request_params(
            client_id@,
            client_secret@,
            user_id@,
            scope@,
        ));
    }
    v
}

/// Builds the full exchange URL: the token endpoint with the credential
/// and scope parameters appended to its query.
pub fn build_code_request_url(
    oauth_base: &str,
    client_id: &str,
    client_secret: &str,
    user_id: &str,
    scope: &str,
) -> (r: Option<String>)
    ensures
        r.deep_view() == url_with_params_of(
            spec_token_endpoint(oauth_base@),
            spec_code_request_params(client_id@, client_secret@, user_id@, scope@),
        ),
{
    let mut endpoint = oauth_base.to_owned();
    endpoint.append("/authorize");
    let params = code_request_params(client_id, client_secret, user_id, scope);
    url_with_params(endpoint.as_str(), &params)
}

/// Turns the exchange's reply into the attempt's single terminal trigger:
/// a parsed 200 succeeds with its token; a 200 whose body did not parse
/// fails; any other status fails with a reason naming that status.
pub fn code_exchange_outcome(status: u16, parsed: Option<CodeResponse>) -> (t: Trigger)
    ensures
        status == 200 ==> (parsed matches Some(c) ==> t@ == (TriggerView::Success {
            access_token: c.access_token@,
        })),
        status == 200 && parsed is None ==> t@ == (TriggerView::Failure {
            message: "Code login failed: Error parsing response"@,
        }),
        status != 200 ==> t@ == (TriggerView::Failure {
            message: "Code login failed: Error making request: "@ + spec_dec(status as nat),
        }),
{
    if status == 200 {
        match parsed {
            Some(c) => Trigger::Success(OAuthLoggedIn { access_token: c.access_token }),
            None => Trigger::Failure(
                OAuthFailed {
                    message: String::from_str("Code login failed: Error parsing response"),
                },
            ),
        }
    } else {
        let mut message = String::from_str("Code login failed: Error making request: ");
        message.append(u16_to_dec(status).as_str());
        Trigger::Failure(OAuthFailed { message })
    }
}

} // verus!
