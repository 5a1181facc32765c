use http::{HeaderMap, HeaderValue};
use imap_mcp_lite::auth::{digests_match, parse_bearer, token_digest};
use imap_mcp_lite::{extract_bearer_token, token_matches};

#[test]
fn token_matches_accepts_exact() {
    assert!(token_matches("s3cret-token", "s3cret-token"));
}

#[test]
fn token_matches_rejects_different_content() {
    assert!(!token_matches("s3cret-token", "s3cret-tokeN"));
    assert!(!token_matches("", "s3cret-token"));
}

#[test]
fn token_matches_rejects_prefix_of_expected() {
    assert!(!token_matches("s3cret", "s3cret-token"));
}

#[test]
fn bearer_token_extraction() {
    let mut headers = HeaderMap::new();
    headers.insert("authorization", "Bearer abc123".parse().unwrap());
    assert_eq!(extract_bearer_token(&headers).as_deref(), Some("abc123"));

    headers.insert("authorization", "Basic abc123".parse().unwrap());
    assert!(extract_bearer_token(&headers).is_none());
}

#[test]
fn missing_header_presents_no_token() {
    assert!(extract_bearer_token(&HeaderMap::new()).is_none());
    let mut headers = HeaderMap::new();
    headers.insert("x-authorization", "Bearer abc123".parse().unwrap());
    assert!(extract_bearer_token(&headers).is_none());
}

#[test]
fn only_the_first_authorization_field_counts() {
    let mut headers = HeaderMap::new();
    headers.append("authorization", "Bearer first".parse().unwrap());
    headers.append("authorization", "Bearer second".parse().unwrap());
    assert_eq!(extract_bearer_token(&headers).as_deref(), Some("first"));

    let mut headers = HeaderMap::new();
    headers.append("authorization", "Basic first".parse().unwrap());
    headers.append("authorization", "Bearer second".parse().unwrap());
    assert!(extract_bearer_token(&headers).is_none());
}

#[test]
fn header_name_is_found_in_any_case() {
    let mut headers = HeaderMap::new();
    let name = http::HeaderName::from_bytes(b"AUTHORIZATION").unwrap();
    headers.insert(name, "Bearer abc".parse().unwrap());
    assert_eq!(extract_bearer_token(&headers).as_deref(), Some("abc"));
}

#[test]
fn values_outside_visible_ascii_present_no_token() {
    let mut headers = HeaderMap::new();
    headers.insert(
        "authorization",
        HeaderValue::from_bytes(b"Bearer caf\xc3\xa9").unwrap(),
    );
    assert!(extract_bearer_token(&headers).is_none());
    headers.insert(
        "authorization",
        HeaderValue::from_bytes(b"Bearer a\tb").unwrap(),
    );
    assert_eq!(extract_bearer_token(&headers).as_deref(), Some("a\tb"));
}

#[test]
fn bearer_prefix_is_exact() {
    assert_eq!(parse_bearer("Bearer abc").as_deref(), Some("abc"));
    assert_eq!(parse_bearer("Bearer ").as_deref(), Some(""));
    assert_eq!(parse_bearer("Bearer  abc").as_deref(), Some(" abc"));
    assert!(parse_bearer("Bearer").is_none());
    assert!(parse_bearer("bearer abc").is_none());
    assert!(parse_bearer(" Bearer abc").is_none());
    assert!(parse_bearer("").is_none());
}

#[test]
fn token_digest_is_sha256() {
    let expected: [u8; 32] = [
        0xba, 0x78, 0x16, 0xbf, 0x8f, 0x01, 0xcf, 0xea, 0x41, 0x41, 0x40, 0xde, 0x5d, 0xae, 0x22,
        0x23, 0xb0, 0x03, 0x61, 0xa3, 0x96, 0x17, 0x7a, 0x9c, 0xb4, 0x10, 0xff, 0x61, 0xf2, 0x00,
        0x15, 0xad,
    ];
    assert_eq!(token_digest("abc"), expected.to_vec());
}

#[test]
fn digests_are_compared_byte_by_byte() {
    assert!(digests_match(&[1, 2, 3], &[1, 2, 3]));
    assert!(digests_match(&[], &[]));
    assert!(!digests_match(&[1, 2, 3], &[1, 2, 4]));
    assert!(!digests_match(&[1, 2, 3], &[1, 2]));
}
