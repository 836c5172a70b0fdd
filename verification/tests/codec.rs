//! Tests of the token codec: issuance, verification, expiration, tampering
//! and algorithm confinement.

use bearer_auth::auth::{Claims, VerifyError, create_jwt, issue_at, validate_token, validate_token_at};

const SECRET: &str = "Jwt_Secret";

fn issued_token(id: i32, now: u64) -> String {
    let line = issue_at(SECRET, id, now);
    assert!(line.starts_with("Bearer "));
    line["Bearer ".len()..].to_string()
}

#[test]
fn round_trip_yields_same_id() {
    let now: u64 = 1_700_000_000;
    let token = issued_token(42, now);
    let claims = validate_token_at(SECRET, &token, now).expect("fresh token must verify");
    assert_eq!(claims.id, 42);
    assert_eq!(claims.exp, now + 3600);
    assert_eq!(claims.iss, "test");
}

#[test]
fn round_trip_under_real_clock() {
    let line = create_jwt(&42);
    assert!(line.starts_with("Bearer "));
    let token = &line["Bearer ".len()..];
    let claims = validate_token(token).expect("freshly issued token must verify");
    assert_eq!(claims.id, 42);
}

#[test]
fn round_trip_negative_and_extreme_ids() {
    let now: u64 = 1_700_000_000;
    for id in [i32::MIN, -1, 0, 1, i32::MAX] {
        let token = issued_token(id, now);
        let claims = validate_token_at(SECRET, &token, now).expect("token must verify");
        assert_eq!(claims.id, id);
    }
}

#[test]
fn expiration_boundary() {
    let now: u64 = 1_000;
    let token = issued_token(7, now);
    // expiration is now + 3600; at that very second the token is already invalid
    assert_eq!(validate_token_at(SECRET, &token, now + 3600), Err(VerifyError::Expired));
    assert_eq!(validate_token_at(SECRET, &token, now + 4000), Err(VerifyError::Expired));
    // one second earlier it still verifies
    assert!(validate_token_at(SECRET, &token, now + 3599).is_ok());
}

fn flip_char(s: &str, i: usize) -> String {
    let mut chars: Vec<char> = s.chars().collect();
    chars[i] = if chars[i] == 'A' { 'B' } else { 'A' };
    chars.into_iter().collect()
}

#[test]
fn tampered_signature_rejected() {
    let now: u64 = 1_700_000_000;
    let token = issued_token(42, now);
    let sig_start = token.rfind('.').unwrap() + 1;
    for i in sig_start..token.len() {
        let tampered = flip_char(&token, i);
        if tampered == token {
            continue;
        }
        assert_eq!(
            validate_token_at(SECRET, &tampered, now),
            Err(VerifyError::BadSignature),
            "altered signature position {} must be rejected",
            i
        );
    }
}

#[test]
fn tampered_claims_rejected() {
    let now: u64 = 1_700_000_000;
    let token = issued_token(42, now);
    let claims_start = token.find('.').unwrap() + 1;
    let claims_end = token.rfind('.').unwrap();
    for i in claims_start..claims_end {
        let tampered = flip_char(&token, i);
        if tampered == token {
            continue;
        }
        let r = validate_token_at(SECRET, &tampered, now);
        assert!(
            r == Err(VerifyError::BadSignature) || r == Err(VerifyError::Malformed),
            "altered claims position {} must be rejected, got {:?}",
            i,
            r
        );
    }
}

#[test]
fn structurally_broken_token_malformed() {
    let now: u64 = 1_700_000_000;
    assert_eq!(validate_token_at(SECRET, "", now), Err(VerifyError::Malformed));
    assert_eq!(validate_token_at(SECRET, "garbage", now), Err(VerifyError::Malformed));
    assert_eq!(validate_token_at(SECRET, "a.b", now), Err(VerifyError::Malformed));
    let token = issued_token(42, now);
    let missing_signature = &token[..token.rfind('.').unwrap()];
    assert_eq!(validate_token_at(SECRET, missing_signature, now), Err(VerifyError::Malformed));
}

#[test]
fn wrong_secret_rejected() {
    let now: u64 = 1_700_000_000;
    let line = issue_at("Other_Secret", 42, now);
    let token = &line["Bearer ".len()..];
    assert_eq!(validate_token_at(SECRET, token, now), Err(VerifyError::BadSignature));
}

#[test]
fn wrong_algorithm_rejected() {
    // a token validly signed under HS256 with the same secret must be rejected
    let now: u64 = 1_700_000_000;
    let mut claims = serde_json::Map::new();
    claims.insert("iss".to_string(), serde_json::Value::from("test"));
    claims.insert("exp".to_string(), serde_json::Value::from(now + 3600));
    claims.insert("id".to_string(), serde_json::Value::from(42));
    let header = jsonwebtoken::Header::new(jsonwebtoken::Algorithm::HS256);
    let key = jsonwebtoken::EncodingKey::from_secret(SECRET.as_bytes());
    let token =
        jsonwebtoken::encode(&header, &serde_json::Value::Object(claims), &key).unwrap();
    assert_eq!(validate_token_at(SECRET, &token, now), Err(VerifyError::BadSignature));
}

#[test]
fn claims_new_holds_fields() {
    let c = Claims::new(&15, 99);
    assert_eq!(c.iss, "test");
    assert_eq!(c.exp, 99);
    assert_eq!(c.id, 15);
}
