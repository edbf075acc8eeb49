use base64::engine::general_purpose::URL_SAFE_NO_PAD;
use base64::Engine;
use gql_async_graphql::auth::{
    decode_segment_bytes, decode_signature_bytes, extract_bearer_token, split_jwt,
    validate_claims, AuthContext, AuthError, DecodedJwt, JwtClaims, JwtHeader,
};
use gql_async_graphql::config::RuntimeConfig;

fn test_config() -> RuntimeConfig {
    RuntimeConfig::new("https://example.supabase.co", "publishable-key")
}

fn claims(sub: &str, iss: &str, exp: u64) -> JwtClaims {
    JwtClaims {
        sub: sub.to_string(),
        iss: iss.to_string(),
        exp,
        aud: vec!["authenticated".to_string()],
    }
}

fn headers_with(value: &str) -> http::HeaderMap {
    let mut headers = http::HeaderMap::new();
    headers.insert(http::header::AUTHORIZATION, value.parse().unwrap());
    headers
}

#[test]
fn bearer_token_is_extracted_and_trimmed() {
    let headers = headers_with("Bearer   abc.def.ghi  ");
    assert_eq!(extract_bearer_token(&headers).unwrap(), "abc.def.ghi");
    let headers = headers_with("bEaReR token-1");
    assert_eq!(extract_bearer_token(&headers).unwrap(), "token-1");
}

#[test]
fn missing_authorization_header_is_reported() {
    assert_eq!(
        extract_bearer_token(&http::HeaderMap::new()),
        Err(AuthError::MissingAuthorization),
    );
}

#[test]
fn malformed_authorization_headers_are_reported() {
    for value in ["NotBearer", "Basic abc", "Bearer    ", "Bearerx abc"] {
        assert_eq!(
            extract_bearer_token(&headers_with(value)),
            Err(AuthError::MalformedAuthorization),
            "{value}",
        );
    }
    let mut headers = http::HeaderMap::new();
    headers.insert(
        http::header::AUTHORIZATION,
        http::HeaderValue::from_bytes(b"Bearer t\xc3\xa9").unwrap(),
    );
    assert_eq!(extract_bearer_token(&headers), Err(AuthError::MalformedAuthorization));
}

#[test]
fn first_authorization_value_is_used() {
    let mut headers = http::HeaderMap::new();
    headers.append(http::header::AUTHORIZATION, "Bearer first".parse().unwrap());
    headers.append(http::header::AUTHORIZATION, "Bearer second".parse().unwrap());
    assert_eq!(extract_bearer_token(&headers).unwrap(), "first");
}

#[test]
fn token_is_split_into_three_segments() {
    let segments = split_jwt("aaa.bbb.ccc").unwrap();
    assert_eq!(segments.header, "aaa");
    assert_eq!(segments.claims, "bbb");
    assert_eq!(segments.signature, "ccc");
    let segments = split_jwt("..").unwrap();
    assert_eq!(segments.header, "");
    assert_eq!(segments.signature, "");
}

#[test]
fn token_with_wrong_segment_count_is_rejected() {
    assert_eq!(
        split_jwt("abc").unwrap_err(),
        AuthError::InvalidToken("missing claims".to_string()),
    );
    assert_eq!(
        split_jwt("abc.def").unwrap_err(),
        AuthError::InvalidToken("missing signature".to_string()),
    );
    assert_eq!(
        split_jwt("a.b.c.d").unwrap_err(),
        AuthError::InvalidToken("expected exactly three JWT segments".to_string()),
    );
}

#[test]
fn segments_decode_from_base64url() {
    assert_eq!(decode_segment_bytes("aGVsbG8").unwrap(), b"hello".to_vec());
    assert_eq!(decode_signature_bytes(&URL_SAFE_NO_PAD.encode([1_u8, 2, 3, 4])).unwrap(), vec![1, 2, 3, 4]);
    let err = decode_segment_bytes("a").unwrap_err();
    match err {
        AuthError::InvalidToken(message) => {
            assert!(message.starts_with("invalid base64url segment: "), "{message}")
        },
        other => panic!("unexpected {other:?}"),
    }
    let err = decode_signature_bytes("aGVsbG8=").unwrap_err();
    match err {
        AuthError::InvalidToken(message) => {
            assert!(message.starts_with("invalid signature encoding: "), "{message}")
        },
        other => panic!("unexpected {other:?}"),
    }
}

#[test]
fn decoded_token_signs_header_and_claims() {
    let segments = split_jwt("hdr.clm.sig").unwrap();
    let decoded = DecodedJwt::from_parts(
        &segments,
        JwtHeader { alg: "RS256".to_string(), kid: Some("test-key".to_string()) },
        claims("user-123", "https://example.supabase.co/auth/v1", 10),
        vec![1, 2, 3, 4],
    );
    assert_eq!(decoded.signing_input, "hdr.clm");
    assert_eq!(decoded.signature, vec![1, 2, 3, 4]);
    assert_eq!(
        AuthError::invalid_json("expected value"),
        AuthError::InvalidToken("invalid JWT JSON: expected value".to_string()),
    );
}

#[test]
fn valid_claims_pass_and_subject_becomes_user() {
    let c = claims("user-123", "https://example.supabase.co/auth/v1", 1_000 + 60);
    assert_eq!(validate_claims(&c, &test_config(), 1_000), Ok(()));
    let c2 = claims("user-123", "https://example.supabase.co/auth/v1///", 1_060);
    assert_eq!(validate_claims(&c2, &test_config(), 1_000), Ok(()));
    let auth = AuthContext::for_subject("tok".to_string(), &c);
    assert_eq!(auth.user_id, "user-123");
    assert_eq!(auth.access_token, "tok");
}

#[test]
fn expired_token_is_rejected() {
    let c = claims("user-123", "https://example.supabase.co/auth/v1", 999);
    assert_eq!(
        validate_claims(&c, &test_config(), 1_000),
        Err(AuthError::InvalidToken("token expired".to_string())),
    );
    let c = claims("user-123", "https://example.supabase.co/auth/v1", 1_000);
    assert_eq!(
        validate_claims(&c, &test_config(), 1_000),
        Err(AuthError::InvalidToken("token expired".to_string())),
    );
}

#[test]
fn blank_subject_and_foreign_issuer_are_rejected() {
    let c = claims(" \t", "https://example.supabase.co/auth/v1", 2_000);
    assert_eq!(
        validate_claims(&c, &test_config(), 1_000),
        Err(AuthError::InvalidToken("missing subject".to_string())),
    );
    let c = claims("u", "https://other.supabase.co/auth/v1", 2_000);
    assert_eq!(
        validate_claims(&c, &test_config(), 1_000),
        Err(AuthError::InvalidToken("issuer mismatch".to_string())),
    );
}

#[test]
fn audience_must_name_authenticated_users() {
    let mut c = claims("u", "https://example.supabase.co/auth/v1", 2_000);
    c.aud = vec![];
    assert_eq!(
        validate_claims(&c, &test_config(), 1_000),
        Err(AuthError::InvalidToken("missing audience".to_string())),
    );
    c.aud = vec!["anon".to_string()];
    assert_eq!(
        validate_claims(&c, &test_config(), 1_000),
        Err(AuthError::InvalidToken("audience mismatch".to_string())),
    );
    c.aud = vec!["anon".to_string(), "authenticated".to_string()];
    assert_eq!(validate_claims(&c, &test_config(), 1_000), Ok(()));
}

#[test]
fn encoded_segments_read_back() {
    let header = br#"{"alg":"RS256","kid":"test-key"}"#;
    let claims_json = br#"{"sub":"user-123","iss":"https://example.supabase.co/auth/v1","exp":9,"aud":"authenticated"}"#;
    let h = URL_SAFE_NO_PAD.encode(header);
    let c = URL_SAFE_NO_PAD.encode(claims_json);
    let g = URL_SAFE_NO_PAD.encode([9_u8, 8, 7]);
    let token = format!("{h}.{c}.{g}");
    let segments = split_jwt(&token).unwrap();
    assert_eq!(decode_segment_bytes(&segments.header).unwrap(), header.to_vec());
    assert_eq!(decode_segment_bytes(&segments.claims).unwrap(), claims_json.to_vec());
    let signature = decode_signature_bytes(&segments.signature).unwrap();
    assert_eq!(signature, vec![9, 8, 7]);
    let decoded = DecodedJwt::from_parts(
        &segments,
        JwtHeader { alg: "RS256".to_string(), kid: Some("test-key".to_string()) },
        claims("user-123", "https://example.supabase.co/auth/v1", 9),
        signature,
    );
    assert_eq!(decoded.signing_input, format!("{h}.{c}"));
}

#[test]
fn auth_error_messages() {
    assert_eq!(AuthError::MissingAuthorization.message(), "Missing Authorization header");
    assert_eq!(AuthError::MalformedAuthorization.message(), "Malformed Authorization header");
    assert_eq!(AuthError::InvalidToken("x".to_string()).message(), "Invalid token: x");
    assert_eq!(AuthError::MissingSigningKey.message(), "Missing signing key");
    assert_eq!(
        AuthError::UnsupportedAlgorithm("HS256".to_string()).message(),
        "Unsupported JWT signing algorithm: HS256",
    );
    assert_eq!(
        AuthError::JwksFetchFailed("boom".to_string()).message(),
        "JWKS fetch failed: boom",
    );
}
