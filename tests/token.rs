use fsqlctl::dispatch::{request_body, request_headers};
use fsqlctl::token::{auth_header, classify_token, is_jwt_token, strip_bearer_prefix, TokenKind};

#[test]
fn three_segments_are_a_jwt() {
    assert!(is_jwt_token("eyJhbGciOi.eyJzdWIi.SflKxw-_RJ"));
    assert_eq!(classify_token("aaa.bbb.ccc"), TokenKind::Jwt);
}

#[test]
fn other_shapes_are_api_keys() {
    assert_eq!(classify_token("abc"), TokenKind::ApiKey);
    assert_eq!(classify_token("a.b"), TokenKind::ApiKey);
    assert_eq!(classify_token("a.b.c.d"), TokenKind::ApiKey);
    assert_eq!(classify_token("a..c"), TokenKind::ApiKey);
    assert_eq!(classify_token(".b.c"), TokenKind::ApiKey);
    assert_eq!(classify_token("a.b."), TokenKind::ApiKey);
    assert_eq!(classify_token("a.b!.c"), TokenKind::ApiKey);
    assert_eq!(classify_token("a b.c.d"), TokenKind::ApiKey);
}

#[test]
fn non_ascii_alphanumerics_count_as_segment_characters() {
    assert_eq!(classify_token("é.ß.ø"), TokenKind::Jwt);
}

#[test]
fn bearer_marker_is_stripped_once() {
    assert_eq!(strip_bearer_prefix("Bearer abc"), "abc");
    assert_eq!(strip_bearer_prefix("bearer abc"), "bearer abc");
    assert_eq!(strip_bearer_prefix("Bearer Bearer x"), "Bearer x");
    assert_eq!(classify_token("Bearer aaa.bbb.ccc"), TokenKind::Jwt);
    assert_eq!(classify_token("Bearer plain-key"), TokenKind::ApiKey);
}

#[test]
fn jwt_goes_in_authorization_header() {
    let h = auth_header("Bearer aaa.bbb.ccc");
    assert_eq!(h.name, "authorization");
    assert_eq!(h.value, "Bearer aaa.bbb.ccc");
    let h = auth_header("aaa.bbb.ccc");
    assert_eq!(h.value, "Bearer aaa.bbb.ccc");
}

#[test]
fn api_key_goes_in_its_own_header_without_marker() {
    let h = auth_header("Bearer my-key");
    assert_eq!(h.name, "x-token-authorization");
    assert_eq!(h.value, "my-key");
}

#[test]
fn request_carries_fixed_headers_then_auth() {
    let hs = request_headers("k");
    let pairs: Vec<(String, String)> = hs.into_iter().map(|h| (h.name, h.value)).collect();
    assert_eq!(
        pairs,
        vec![
            ("user-agent".to_string(), "fsqlctl".to_string()),
            ("x-queryai-fuql".to_string(), "v2".to_string()),
            ("content-type".to_string(), "application/json".to_string()),
            ("x-token-authorization".to_string(), "k".to_string()),
        ]
    );
}

#[test]
fn request_body_quotes_the_command() {
    assert_eq!(request_body("query x"), "{\"q\":\"query x\"}");
    assert_eq!(
        request_body("a \"b\"\nc"),
        "{\"q\":\"a \\\"b\\\"\\nc\"}"
    );
}
