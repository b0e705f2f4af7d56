use oauth_flow::extract::{access_token_from_request, error_field_from_request, get_access_token};

#[test]
fn query_token_wins_over_fragment() {
    let url = "http://localhost:8123/callback?access_token=abc&scope=y#access_token=other";
    assert_eq!(access_token_from_request(url), Some("abc".to_string()));
}

#[test]
fn fragment_token_found_when_query_lacks_one() {
    let url = "http://x/cb#access_token=abc&scope=y";
    assert_eq!(access_token_from_request(url), Some("abc".to_string()));
}

#[test]
fn fragment_token_found_when_query_has_other_keys() {
    let url = "http://x/cb?state=1#scope=y&access_token=tok";
    assert_eq!(access_token_from_request(url), Some("tok".to_string()));
}

#[test]
fn no_token_anywhere_returns_none() {
    assert_eq!(access_token_from_request("http://x/cb?foo=1#bar=2"), None);
    assert_eq!(access_token_from_request("http://x/cb"), None);
}

#[test]
fn malformed_fragment_is_treated_as_absent() {
    assert_eq!(access_token_from_request("http://x/cb#%%%%"), None);
    assert_eq!(access_token_from_request("http://x/cb#====&&=="), None);
    assert_eq!(access_token_from_request("http://x/cb#"), None);
}

#[test]
fn unparsable_url_returns_none() {
    assert_eq!(access_token_from_request("not a url at all"), None);
    assert_eq!(access_token_from_request(""), None);
}

#[test]
fn percent_escapes_and_plus_are_decoded() {
    let url = "http://x/cb#access_token=a%20b+c";
    assert_eq!(access_token_from_request(url), Some("a b c".to_string()));
}

#[test]
fn first_value_of_a_repeated_key_wins() {
    let pairs = vec![
        ("scope".to_string(), "y".to_string()),
        ("access_token".to_string(), "first".to_string()),
        ("access_token".to_string(), "second".to_string()),
    ];
    assert_eq!(
        get_access_token("access_token", &pairs),
        Some("first".to_string())
    );
    assert_eq!(get_access_token("missing", &pairs), None);
    assert_eq!(get_access_token("scope", &pairs), Some("y".to_string()));
}

#[test]
fn lookup_in_empty_pairs_returns_none() {
    let pairs: Vec<(String, String)> = vec![];
    assert_eq!(get_access_token("access_token", &pairs), None);
}

#[test]
fn error_field_comes_from_the_query_string() {
    let url = "http://localhost:8123/callback?error=access_denied";
    assert_eq!(error_field_from_request(url), "access_denied".to_string());
}

#[test]
fn error_field_defaults_to_empty() {
    assert_eq!(error_field_from_request("http://x/cb"), String::new());
    assert_eq!(error_field_from_request("#no-url"), String::new());
    assert_eq!(
        error_field_from_request("http://x/cb#error=fragment_only"),
        String::new()
    );
}
