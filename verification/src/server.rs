//! The local callback server's request handling.
//!
//! The server owns one bound port for the attempt's lifetime and serves two
//! logical paths.  Anything but `/finish` (which covers `/callback` and its
//! variants) gets an HTML page whose script forwards the browser's full URL
//! — fragment included, which an HTTP request line never carries — to
//! `/finish` in an `X-Full-Url` header.  `/finish` runs the token extractor
//! on that URL and decides both the HTTP reply and the terminal trigger to
//! dispatch.  The accept loop itself, with its bounded poll, lives outside
//! the library; it feeds each request through [`handle_request`] and exits
//! as soon as [`crate::state::OauthState::should_stop`] says so.

use vstd::prelude::*;
use vstd::string::StringExecFns;

use crate::coordinator::{Trigger, TriggerView};
use crate::events::{OAuthFailed, OAuthLoggedIn};
use crate::extract::{
    access_token_from_request, error_field_from_request, spec_error_field, spec_extract,
};
use crate::strutil::str_eq;

verus! {

/// The text before the forwarding URL in the callback page.
pub const CALLBACK_PAGE_HEAD: &'static str = "\n        <html>\n            <head><title>Twitch Voices</title></head>\n            <body>\n                <style>\n                    .body {\n                        text-align: center;\n                    }\n                </style>\n                <script>\n                fetch(\"";

/// The text after the forwarding URL in the callback page.
pub const CALLBACK_PAGE_TAIL: &'static str = "\", {headers:{'X-Full-Url':window.location.href}}).then((response) => {\n                    if (response.status == 200) {\n                        document.write(\"You have been logged in, please close the window\");\n                        window.close();\n                    } else {\n                        document.write(\"Oh no! Something went wrong! There's not much we can do at this point. :-( \")\n                    }\n                })\n                </script>\n            </body>\n        ";

/// The callback page for a given `Host` header: an HTML shell whose script
/// forwards `window.location.href` to this server's `/finish` path.
pub open spec fn spec_callback_page(host: Seq<char>) -> Seq<char> {
    CALLBACK_PAGE_HEAD@ + "http://"@ + host + "/finish"@ + CALLBACK_PAGE_TAIL@
}

/// Builds the callback page around the `/finish` URL of this server.
pub fn callback_page(host: &str) -> (r: String)
    ensures
        r@ == spec_callback_page(host@),
{
    let mut page = String::from_str(CALLBACK_PAGE_HEAD);
    page.append("http://");
    page.append(host);
    page.append("/finish");
    page.append(CALLBACK_PAGE_TAIL);
    page
}

/// What `/finish` decides for one forwarded URL: the HTTP reply and the
/// terminal trigger to dispatch.
pub struct FinishDecision {
    pub status: u16,
    pub body: String,
    pub trigger: Trigger,
}

/// Decides the `/finish` reply for a forwarded full URL: a token means a
/// 200 `OK` and a success trigger carrying it; no token means a 404
/// `Not Found` and a failure trigger carrying the URL's `error` field.
pub fn finish_decision(full_url: &str) -> (r: FinishDecision)
    ensures
        (spec_extract(full_url@) matches Some(tok) ==> {
            &&& r.status == 200
            &&& r.body@ == "OK"@
            &&& r.trigger@ == (TriggerView::Success { access_token: tok })
        }),
        spec_extract(full_url@) is None ==> {
            &&& r.status == 404
            &&& r.body@ == "Not Found"@
            &&& r.trigger@ == (TriggerView::Failure { message: spec_error_field(full_url@) })
        },
{
    match access_token_from_request(full_url) {
        Some(access_token) => FinishDecision {
            status: 200,
            body: String::from_str("OK"),
            trigger: Trigger::Success(OAuthLoggedIn { access_token }),
        },
        None => {
            let message = error_field_from_request(full_url);
            FinishDecision {
                status: 404,
                body: String::from_str("Not Found"),
                trigger: Trigger::Failure(OAuthFailed { message }),
            }
        },
    }
}

/// One routed request: the HTTP reply, and the terminal trigger `/finish`
/// asks the coordinator to fire, if any.
pub struct RequestOutcome {
    pub status: u16,
    pub body: String,
    pub trigger: Option<Trigger>,
}

/// Routes one request.  `path` is the request's URL path, `host` its `Host`
/// header and `full_url` its `X-Full-Url` header, each read as empty text
/// when absent.  Every path but `/finish` gets the callback page and
/// triggers nothing; `/finish` gets the token decision.
pub fn handle_request(path: &str, host: &str, full_url: &str) -> (r: RequestOutcome)
    ensures
        path@ != "/finish"@ ==> {
            &&& r.status == 200
            &&& r.body@ == spec_callback_page(host@)
            &&& r.trigger is None
        },
        path@ == "/finish"@ ==> {
            &&& (spec_extract(full_url@) matches Some(tok) ==> {
                &&& r.status == 200
                &&& r.body@ == "OK"@
                &&& (r.trigger matches Some(t) && t@ == (TriggerView::Success {
                    access_token: tok,
                }))
            })
            &&& (spec_extract(full_url@) is None ==> {
                &&& r.status == 404
                &&& r.body@ == "Not Found"@
                &&& (r.trigger matches Some(t) && t@ == (TriggerView::Failure {
                    message: spec_error_field(full_url@),
                }))
            })
        },
{
    if str_eq(path, "/finish") {
        let d = finish_decision(full_url);
        RequestOutcome { status: d.status, body: d.body, trigger: Some(d.trigger) }
    } else {
        RequestOutcome { status: 200, body: callback_page(host), trigger: None }
    }
}

} // verus!
