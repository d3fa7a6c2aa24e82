use devtools_core::jwt_decode::{decode_jwt, decoded_from_parts, failure_message};
use hmac::{Hmac, Mac};
use jwt::header::{HeaderContentType, HeaderType};
use jwt::{AlgorithmType, Claims, Header, RegisteredClaims, SignWithKey, Token};
use sha2::Sha256;
use std::collections::BTreeMap;

fn create_valid_token() -> String {
    let key: Hmac<Sha256> = Hmac::new_from_slice(b"mock-secret").expect("valid HMAC key");
    let header = Header {
        algorithm: AlgorithmType::Hs256,
        key_id: None,
        type_: Some(HeaderType::JsonWebToken),
        content_type: Some(HeaderContentType::JsonWebToken),
    };
    let claims = Claims {
        registered: RegisteredClaims {
            issuer: Some("example-issuer".to_string()),
            subject: Some("example-subject".to_string()),
            audience: Some("example-audience".to_string()),
            expiration: Some(1609459200),
            not_before: Some(1609455600),
            issued_at: Some(1609372800),
            json_web_token_id: Some("example-jwt-id".to_string()),
        },
        private: {
            let mut private_data = BTreeMap::new();
            private_data.insert(
                "custom_key".to_string(),
                serde_json::Value::String("custom_value".to_string()),
            );
            private_data
        },
    };
    Token::new(header, claims)
        .sign_with_key(&key)
        .expect("valid token creation")
        .as_str()
        .to_string()
}

#[test]
fn test_returns_error_for_malformed_token() {
    let result = decode_jwt("invalid.token");
    assert!(result.is_err());
    assert_eq!(result.err().unwrap(), "Failed to decode JWT token. Please check that the token is valid and properly formatted. Error: No signature component found in token string");
}

#[test]
fn test_extracts_header_and_claims_from_valid_token() {
    let token = create_valid_token();
    let decoded = decode_jwt(&token).expect("Invalid JWT");

    assert_eq!(decoded.header.alg, AlgorithmType::Hs256);
    assert_eq!(
        decoded.claims.registered.issuer.as_deref(),
        Some("example-issuer")
    );
    assert_eq!(decoded.claims.registered.issued_at, Some(1609372800));
    assert_eq!(
        decoded
            .claims
            .private
            .get("custom_key")
            .and_then(|v| v.as_str()),
        Some("custom_value")
    );
}

#[test]
fn missing_content_type_reads_as_jwt() {
    let claims = Claims::new(RegisteredClaims::default());
    let decoded = decoded_from_parts(AlgorithmType::Hs384, None, claims);
    assert_eq!(decoded.header.alg, AlgorithmType::Hs384);
    assert_eq!(decoded.header.typ, HeaderContentType::JsonWebToken);
}

#[test]
fn failure_message_prefixes_detail() {
    assert_eq!(
        failure_message("boom"),
        "Failed to decode JWT token. Please check that the token is valid and properly formatted. Error: boom"
    );
}

#[test]
fn too_many_parts_is_rejected() {
    assert!(decode_jwt("a.b.c.d").is_err());
}
