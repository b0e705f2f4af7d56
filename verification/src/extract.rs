//! The token extractor.
//!
//! An OAuth redirect lands on the local callback server as a full URL whose
//! query string (authorization-code shape) or fragment (implicit grant) may
//! carry an `access_token` key.  The extractor tries the query first, then
//! the fragment, and treats anything malformed as absent rather than
//! failing.  URL splitting and `application/x-www-form-urlencoded`
//! decoding are done by the `url` crate; everything downstream of those two
//! calls is verified against their named results.

use vstd::prelude::*;

use crate::strutil::str_eq;

verus! {

/// What a well-formed URL splits into: its raw query string and its raw
/// fragment, either of which may be absent.
pub struct UrlParts {
    pub query: Option<String>,
    pub fragment: Option<String>,
}

/// The query and fragment of a URL as `url::Url::parse` reads it, or
/// nothing when the text is not an absolute URL.
pub uninterp spec fn url_parts_of(url: Seq<char>) -> Option<(Option<Seq<char>>, Option<Seq<char>>)>;

/// The key/value pairs that `application/x-www-form-urlencoded` decoding
/// reads out of a piece of text, in order.
pub uninterp spec fn form_pairs_of(input: Seq<char>) -> Seq<(Seq<char>, Seq<char>)>;

/// Relies on `url::Url::parse` and the accessors `Url::query` and
/// `Url::fragment`: a string that parses as an absolute URL splits into its
/// raw query string and raw fragment, both functions of the text alone;
/// one that does not parse yields nothing.
#[verifier::external_body]
fn split_url(url: &str) -> (r: Option<UrlParts>)
    ensures
        (match r {
            Some(p) => url_parts_of(url@) == Some((p.query.deep_view(), p.fragment.deep_view())),
            None => url_parts_of(url@) is None,
        }),
{
    match url::Url::parse(url) {
        Ok(u) => Some(
            UrlParts {
                query: u.query().map(|q| q.to_string()),
                fragment: u.fragment().map(|f| f.to_string()),
            },
        ),
        Err(_) => None,
    }
}

/// Relies on `url::form_urlencoded::parse`: the decoded key/value pairs
/// (split on `&` and the first `=`, `+` read as space, percent-escapes
/// decoded) are a function of the input text alone.
#[verifier::external_body]
fn parse_form_pairs(input: &str) -> (r: Vec<(String, String)>)
    ensures
        r.deep_view() == form_pairs_of(input@),
{
    url::form_urlencoded::parse(input.as_bytes())
        .map(|(k, v)| (k.to_string(), v.to_string()))
        .collect()
}

/// The first value bound to `key` in a key/value sequence, if any.
pub open spec fn spec_lookup(key: Seq<char>, pairs: Seq<(Seq<char>, Seq<char>)>) -> Option<
    Seq<char>,
>
    decreases pairs.len(),
{
    if pairs.len() == 0 {
        None
    } else if pairs[0].0 == key {
        Some(pairs[0].1)
    } else {
        spec_lookup(key, pairs.drop_first())
    }
}

proof fn lemma_lookup_past_miss(key: Seq<char>, pairs: Seq<(Seq<char>, Seq<char>)>, i: int)
    requires
        0 <= i <= pairs.len(),
        forall|j: int| 0 <= j < i ==> pairs[j].0 != key,
    ensures
        spec_lookup(key, pairs) == spec_lookup(key, pairs.skip(i)),
    decreases i,
{
    if i == 0 {
        assert(pairs.skip(0) =~= pairs);
    } else {
        lemma_lookup_past_miss(key, pairs, i - 1);
        assert(pairs.skip(i - 1).drop_first() =~= pairs.skip(i));
        assert(pairs.skip(i - 1).len() > 0);
        assert(pairs.skip(i - 1)[0] == pairs[i - 1]);
        assert(pairs.skip(i - 1)[0].0 != key);
        assert(spec_lookup(key, pairs.skip(i - 1)) == spec_lookup(
            key,
            pairs.skip(i - 1).drop_first(),
        ));
    }
}

/// Returns the first value bound to `needle` in `pairs`, the companion
/// lookup used both for `access_token` and for a diagnostic `error` field.
pub fn get_access_token(needle: &str, pairs: &Vec<(String, String)>) -> (r: Option<String>)
    ensures
        r.deep_view() == spec_lookup(needle@, pairs.deep_view()),
{
    let ghost all = pairs.deep_view();
    let mut i: usize = 0;
    while i < pairs.len()
        invariant
            i <= pairs.len(),
            all == pairs.deep_view(),
            forall|j: int| 0 <= j < i ==> all[j].0 != needle@,
        decreases pairs.len() - i,
    {
        if str_eq(pairs[i].0.as_str(), needle) {
            let r = Some(pairs[i].1.clone());
            proof {
                lemma_lookup_past_miss(needle@, all, i as int);
                assert(all.skip(i as int).len() > 0);
                assert(all.skip(i as int)[0] == all[i as int]);
                assert(all[i as int] == (pairs@[i as int].0@, pairs@[i as int].1@));
            }
            return r;
        }
        proof {
            assert(all[i as int] == (pairs@[i as int].0@, pairs@[i as int].1@));
        }
        i += 1;
    }
    proof {
        lemma_lookup_past_miss(needle@, all, all.len() as int);
        assert(all.skip(all.len() as int) =~= Seq::<(Seq<char>, Seq<char>)>::empty());
    }
    None
}

/// The token a split URL yields: the first `access_token` in the query
/// string, else the first `access_token` in the fragment, else nothing.
pub open spec fn spec_token_from_parts(
    query: Option<Seq<char>>,
    fragment: Option<Seq<char>>,
) -> Option<Seq<char>> {
    let from_query = match query {
        Some(q) => spec_lookup("access_token"@, form_pairs_of(q)),
        None => None,
    };
    if from_query is Some {
        from_query
    } else {
        match fragment {
            Some(f) => spec_lookup("access_token"@, form_pairs_of(f)),
            None => None,
        }
    }
}

/// The token a full redirect URL yields, with a URL that does not parse
/// treated as carrying none.
pub open spec fn spec_extract(url: Seq<char>) -> Option<Seq<char>> {
    match url_parts_of(url) {
        Some(parts) => spec_token_from_parts(parts.0, parts.1),
        None => None,
    }
}

/// The token carried by an already split URL: the query string wins over
/// the fragment, and a missing piece simply yields nothing.
pub fn token_from_parts(parts: &UrlParts) -> (r: Option<String>)
    ensures
        r.deep_view() == spec_token_from_parts(parts.query.deep_view(), parts.fragment.deep_view()),
{
    if let Some(q) = &parts.query {
        let pairs = parse_form_pairs(q.as_str());
        let from_query = get_access_token("access_token", &pairs);
        if from_query.is_some() {
            return from_query;
        }
    }
    if let Some(f) = &parts.fragment {
        let pairs = parse_form_pairs(f.as_str());
        return get_access_token("access_token", &pairs);
    }
    None
}

/// Extracts the bearer token from a full redirect URL: the query string
/// first, the fragment second, nothing when both lack the key or the text
/// is not a URL.
pub fn access_token_from_request(token_url: &str) -> (r: Option<String>)
    ensures
        r.deep_view() == spec_extract(token_url@),
{
    match split_url(token_url) {
        Some(parts) => token_from_parts(&parts),
        None => None,
    }
}

/// The diagnostic reason a failed callback carries: the first `error`
/// field of the URL's query string, or empty text when the URL, its query,
/// or the field is absent.
pub open spec fn spec_error_field(url: Seq<char>) -> Seq<char> {
    match url_parts_of(url) {
        Some(parts) => match parts.0 {
            Some(q) => match spec_lookup("error"@, form_pairs_of(q)) {
                Some(m) => m,
                None => Seq::<char>::empty(),
            },
            None => Seq::<char>::empty(),
        },
        None => Seq::<char>::empty(),
    }
}

/// Pulls the diagnostic `error` field out of a failed callback's query
/// string, defaulting to empty text.
pub fn error_field_from_request(url: &str) -> (r: String)
    ensures
        r@ == spec_error_field(url@),
{
    let mut message = String::new();
    if let Some(parts) = split_url(url) {
        if let Some(q) = &parts.query {
            let pairs = parse_form_pairs(q.as_str());
            if let Some(m) = get_access_token("error", &pairs) {
                message = m;
            }
        }
    }
    message
}

/// A token in the query string wins: for every URL whose query string binds
/// `access_token`, the extractor returns that value, whatever the fragment
/// holds.
pub proof fn lemma_query_token_wins(
    url: Seq<char>,
    q: Seq<char>,
    fragment: Option<Seq<char>>,
    v: Seq<char>,
)
    requires
        url_parts_of(url) == Some((Some(q), fragment)),
        spec_lookup("access_token"@, form_pairs_of(q)) == Some(v),
    ensures
        spec_extract(url) == Some(v),
{
}

/// With no token in the query string, the fragment's `access_token` value
/// is returned.
pub proof fn lemma_fragment_token_when_query_lacks_one(
    url: Seq<char>,
    query: Option<Seq<char>>,
    f: Seq<char>,
    v: Seq<char>,
)
    requires
        url_parts_of(url) == Some((query, Some(f))),
        (match query {
            Some(q) => spec_lookup("access_token"@, form_pairs_of(q)) is None,
            None => true,
        }),
        spec_lookup("access_token"@, form_pairs_of(f)) == Some(v),
    ensures
        spec_extract(url) == Some(v),
{
}

/// With a token in neither piece — or no URL at all — the extractor returns
/// nothing.
pub proof fn lemma_no_token_anywhere(url: Seq<char>)
    requires
        (match url_parts_of(url) {
            Some(parts) => {
                &&& (match parts.0 {
                    Some(q) => spec_lookup("access_token"@, form_pairs_of(q)) is None,
                    None => true,
                })
                &&& (match parts.1 {
                    Some(f) => spec_lookup("access_token"@, form_pairs_of(f)) is None,
                    None => true,
                })
            },
            None => true,
        }),
    ensures
        spec_extract(url) is None,
{
}

} // verus!
