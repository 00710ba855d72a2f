use shenyu_client_rust::token::TokenFetch;
use shenyu_client_rust::token::extract_token;

#[test]
fn extract_token_reads_data_token() {
    assert_eq!(
        extract_token("{\"code\":200,\"data\":{\"token\":\"T\"}}"),
        Some("T".to_string())
    );
}

#[test]
fn extract_token_rejects_bodies_without_a_token() {
    assert_eq!(extract_token("{\"data\":{}}"), None);
    assert_eq!(extract_token("{\"data\":{\"token\":null}}"), None);
    assert_eq!(extract_token("{\"data\":{\"token\":42}}"), None);
    assert_eq!(extract_token("{\"token\":\"T\"}"), None);
    assert_eq!(extract_token("not json"), None);
    assert_eq!(extract_token(""), None);
}

#[test]
fn first_endpoint_with_a_token_wins() {
    let urls = vec![
        "http://a/platform/login".to_string(),
        "http://b/platform/login".to_string(),
    ];
    let mut fetch = TokenFetch::new(urls.clone());
    assert_eq!(fetch.next_url(), Some(&urls[0]));
    // The first endpoint answers without a token; the walk moves on.
    assert_eq!(fetch.on_response(Some("{\"data\":{}}")), None);
    assert_eq!(fetch.next_url(), Some(&urls[1]));
    let token = fetch.on_response(Some("{\"data\":{\"token\":\"T\"}}"));
    assert_eq!(token, Some("T".to_string()));
    // A hit does not advance the walk: the caller stops here, and the
    // remaining endpoints are never contacted.
    assert_eq!(fetch.next_url(), Some(&urls[1]));
}

#[test]
fn a_transport_error_falls_through_to_the_next_endpoint() {
    let urls = vec![
        "http://a/platform/login".to_string(),
        "http://b/platform/login".to_string(),
    ];
    let mut fetch = TokenFetch::new(urls.clone());
    // The login endpoint on the first server errors out entirely.
    assert_eq!(fetch.on_response(None), None);
    assert_eq!(fetch.next_url(), Some(&urls[1]));
    assert_eq!(
        fetch.on_response(Some("{\"data\":{\"token\":\"T\"}}")),
        Some("T".to_string())
    );
}

#[test]
fn a_fetch_with_no_endpoints_has_nothing_to_contact() {
    let fetch = TokenFetch::new(Vec::new());
    assert_eq!(fetch.next_url(), None);
}

#[test]
fn a_fetch_with_no_token_anywhere_runs_out() {
    let urls = vec!["http://a/platform/login".to_string()];
    let mut fetch = TokenFetch::new(urls);
    assert_eq!(fetch.on_response(Some("{}")), None);
    assert_eq!(fetch.next_url(), None);
}
