use token_broker::{
    access_token_expiry, cache_key, code_grant_query, contains_key, decimal_string, extract_identity,
    is_expired, make_error, payload_segment, read_cached_token, refresh_grant_query, response_of,
    token_url, validate_params, ErrorKind, EXPIRY_MARGIN,
};

fn encode(payload: &str) -> String {
    base64::Engine::encode(&base64::engine::general_purpose::STANDARD_NO_PAD, payload.as_bytes())
}

#[test]
fn payload_segment_is_the_second_part() {
    assert_eq!(payload_segment("a.b.c"), Some("b".to_string()));
    assert_eq!(payload_segment("a.bc"), Some("bc".to_string()));
    assert_eq!(payload_segment("a..c"), Some(String::new()));
    assert_eq!(payload_segment(".x"), Some("x".to_string()));
    assert_eq!(payload_segment("abc"), None);
    assert_eq!(payload_segment(""), None);
}

#[test]
fn identity_claims_are_read() {
    let code = format!("h.{}.s", encode(r#"{"user_id":42,"app_id":"my-app","exp":123}"#));
    let c = extract_identity(&code).unwrap();
    assert_eq!(c.user_id, 42);
    assert_eq!(c.app_id, "my-app");
    assert_eq!(c.exp, 123);
}

#[test]
fn identity_needs_all_three_claims() {
    let code = format!("h.{}.s", encode(r#"{"user_id":42,"exp":123}"#));
    assert_eq!(extract_identity(&code).unwrap_err().kind, ErrorKind::Codec);
}

#[test]
fn padded_payload_is_refused() {
    let code = "h.eyJ1c2VyX2lkIjoxfQ==.s";
    assert_eq!(extract_identity(code).unwrap_err().kind, ErrorKind::Codec);
}

#[test]
fn access_token_expiry_is_read() {
    assert_eq!(access_token_expiry("a.eyJleHAiOjk5OTk5OTk5OTl9.c").unwrap(), 9_999_999_999);
    let e = access_token_expiry("nodot").unwrap_err();
    assert_eq!(e.kind, ErrorKind::Codec);
    assert_eq!(e.message, "failed to extract the data section from the jwt token");
}

#[test]
fn stored_pair_reads_back() {
    let stored = br#"{"access_token":"a.eyJleHAiOjk5OTk5OTk5OTl9.c","refresh_token":"r"}"#;
    let (exp, refresh) = read_cached_token(stored).unwrap();
    assert_eq!(exp, 9_999_999_999);
    assert_eq!(refresh, "r");
}

#[test]
fn cache_key_format() {
    assert_eq!(cache_key("app", 7), "jobber-tokens/app/7.json");
    assert_eq!(cache_key("x", 0), "jobber-tokens/x/0.json");
    assert_eq!(cache_key("", u64::MAX), "jobber-tokens//18446744073709551615.json");
}

#[test]
fn decimal_notation() {
    assert_eq!(decimal_string(0), "0");
    assert_eq!(decimal_string(9), "9");
    assert_eq!(decimal_string(10), "10");
    assert_eq!(decimal_string(1234567890), "1234567890");
}

#[test]
fn listing_membership() {
    let keys = vec!["jobber-tokens/a/1.json".to_string(), "jobber-tokens/b/2.json".to_string()];
    assert!(contains_key(&keys, &"jobber-tokens/b/2.json".to_string()));
    assert!(!contains_key(&keys, &"jobber-tokens/b/3.json".to_string()));
    assert!(!contains_key(&vec![], &"jobber-tokens/b/2.json".to_string()));
}

#[test]
fn expiry_uses_the_margin() {
    assert_eq!(EXPIRY_MARGIN, 1800);
    assert!(!is_expired(10_000, Some(8_200)));
    assert!(is_expired(10_000, Some(8_201)));
    assert!(is_expired(10_000, Some(20_000)));
    assert!(is_expired(100, Some(0)));
    assert!(!is_expired(0, None));
    assert!(is_expired(u64::MAX, Some(u64::MAX)));
}

#[test]
fn grant_queries() {
    assert_eq!(
        code_grant_query("id", "sec", "c0de", "https://x/cb"),
        "client_id=id&client_secret=sec&grant_type=authorization_code&code=c0de&redirect_uri=https://x/cb"
    );
    assert_eq!(
        refresh_grant_query("id", "sec", "rt"),
        "client_id=id&client_secret=sec&grant_type=refresh_token&refresh_token=rt"
    );
    assert_eq!(token_url("q=1"), "https://api.getjobber.com/api/oauth/token?q=1");
}

#[test]
fn validation_keeps_values() {
    let p = validate_params(
        Some("c".to_string()),
        Some("u".to_string()),
        Some("i".to_string()),
        Some("s".to_string()),
        Some("b".to_string()),
    )
    .unwrap();
    assert_eq!((p.code, p.redirect_uri, p.client_id, p.client_secret, p.bucket), (
        "c".to_string(),
        "u".to_string(),
        "i".to_string(),
        "s".to_string(),
        "b".to_string()
    ));
}

#[test]
fn responses() {
    assert_eq!(response_of(&Ok(())), (200, String::new()));
    let e = make_error(ErrorKind::Storage, "boom");
    assert_eq!(e.kind, ErrorKind::Storage);
    assert_eq!(response_of(&Err(e)), (422, "boom".to_string()));
}
