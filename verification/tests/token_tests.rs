use auth_service::auth::{
    auth_check_claims, auth_finish, auth_start, bearer_token, unauthorized, AuthFailure,
};
use auth_service::jwt::{build_claims, create_jwt, encode_claims, now_timestamp, Claims, TOKEN_LIFETIME_SECS};
use jsonwebtoken::{decode, DecodingKey, EncodingKey, Header, Validation};

fn decode_value(token: &str, secret: &str) -> serde_json::Value {
    let mut v = Validation::default();
    v.validate_exp = false;
    v.required_spec_claims.clear();
    decode::<serde_json::Value>(token, &DecodingKey::from_secret(secret.as_bytes()), &v).unwrap().claims
}

fn sample_claims() -> Claims {
    build_claims(
        0x0123_4567_89ab_cdef_0f1e_2d3c_4b5a_6978,
        "bob@example.com",
        "admin",
        1_700_000_000,
        "11111111-2222-4333-8444-555555555555".to_string(),
    )
}

#[test]
fn build_claims_values() {
    let c = sample_claims();
    assert_eq!(c.sub, 0x0123_4567_89ab_cdef_0f1e_2d3c_4b5a_6978);
    assert_eq!(c.iat, 1_700_000_000);
    assert_eq!(c.exp, 1_700_086_400);
    assert_eq!(c.jti, "11111111-2222-4333-8444-555555555555");
    assert_eq!(c.email, "bob@example.com");
    assert_eq!(c.role, "admin");
    assert_eq!(TOKEN_LIFETIME_SECS, 24 * 3600);
}

#[test]
fn encode_claims_equals_jsonwebtoken_on_same_object() {
    let c = sample_claims();
    let token = encode_claims(&c, "s3cret").unwrap();
    let mut m = serde_json::Map::new();
    m.insert("sub".to_string(), "01234567-89ab-cdef-0f1e-2d3c4b5a6978".into());
    m.insert("exp".to_string(), 1_700_086_400u64.into());
    m.insert("iat".to_string(), 1_700_000_000u64.into());
    m.insert("jti".to_string(), "11111111-2222-4333-8444-555555555555".into());
    m.insert("email".to_string(), "bob@example.com".into());
    m.insert("role".to_string(), "admin".into());
    let reference = jsonwebtoken::encode(&Header::default(), &m, &EncodingKey::from_secret(b"s3cret")).unwrap();
    assert_eq!(token, reference);
    assert_eq!(token.split('.').count(), 3);
    // a different secret gives a different signature
    assert_ne!(encode_claims(&c, "other").unwrap(), token);
}

#[test]
fn encoded_claims_decode_back() {
    let token = encode_claims(&sample_claims(), "k").unwrap();
    let v = decode_value(&token, "k");
    assert_eq!(v["sub"], "01234567-89ab-cdef-0f1e-2d3c4b5a6978");
    assert_eq!(v["exp"], 1_700_086_400u64);
    assert_eq!(v["iat"], 1_700_000_000u64);
    assert_eq!(v["jti"], "11111111-2222-4333-8444-555555555555");
    assert_eq!(v["email"], "bob@example.com");
    assert_eq!(v["role"], "admin");
}

#[test]
fn create_jwt_issues_24_hour_token_with_v4_id() {
    let before = now_timestamp();
    let token = create_jwt(7, "carol@example.com", "user", "secret").unwrap();
    let after = now_timestamp();
    let v = decode_value(&token, "secret");
    let iat = v["iat"].as_i64().unwrap();
    let exp = v["exp"].as_i64().unwrap();
    assert!(before <= iat && iat <= after);
    assert_eq!(exp - iat, 86400);
    assert_eq!(v["sub"], "00000000-0000-0000-0000-000000000007");
    assert_eq!(v["email"], "carol@example.com");
    assert_eq!(v["role"], "user");
    let jti = v["jti"].as_str().unwrap();
    let parsed = uuid::Uuid::parse_str(jti).unwrap();
    assert_eq!(parsed.get_version_num(), 4);
    assert_eq!(parsed.to_string(), jti);
    // default validation (signature and expiry) accepts a fresh token
    assert!(decode::<serde_json::Value>(&token, &DecodingKey::from_secret(b"secret"), &Validation::default()).is_ok());
    assert!(decode::<serde_json::Value>(&token, &DecodingKey::from_secret(b"wrong"), &Validation::default()).is_err());
}

#[test]
fn two_tokens_have_distinct_ids() {
    let a = decode_value(&create_jwt(1, "a@b.c", "user", "s").unwrap(), "s");
    let b = decode_value(&create_jwt(1, "a@b.c", "user", "s").unwrap(), "s");
    assert_ne!(a["jti"], b["jti"]);
}

#[test]
fn now_timestamp_is_the_clock() {
    let t = now_timestamp();
    let sys = std::time::SystemTime::now().duration_since(std::time::UNIX_EPOCH).unwrap().as_secs() as i64;
    assert!((sys - t).abs() <= 2);
}

#[test]
fn bearer_token_extraction() {
    assert_eq!(bearer_token("Bearer abc.def.ghi"), Some("abc.def.ghi".to_string()));
    assert_eq!(bearer_token("Bearer "), Some(String::new()));
    assert_eq!(bearer_token("bearer abc"), None);
    assert_eq!(bearer_token("Bearer"), None);
    assert_eq!(bearer_token("Basic dXNlcjpwYXNz"), None);
    assert_eq!(bearer_token(""), None);
    assert_eq!(bearer_token("Bearer  two"), Some(" two".to_string()));
}

#[test]
fn bearer_round_trip() {
    for t in ["x", "eyJ.a.b", "", "é"] {
        let header = format!("Bearer {}", t);
        assert_eq!(bearer_token(&header), Some(t.to_string()));
    }
}

#[test]
fn auth_start_steps() {
    assert_eq!(auth_start(None), Err(AuthFailure::MissingToken));
    assert_eq!(auth_start(Some("Token x")), Err(AuthFailure::MissingToken));
    assert_eq!(auth_start(Some("Bearer x")), Ok("x".to_string()));
}

#[test]
fn auth_check_claims_steps() {
    assert_eq!(auth_check_claims(None, true), Err(AuthFailure::InvalidToken));
    assert_eq!(auth_check_claims(None, false), Err(AuthFailure::InvalidToken));
    assert_eq!(auth_check_claims(Some(sample_claims()), false), Err(AuthFailure::Internal));
    assert_eq!(auth_check_claims(Some(sample_claims()), true), Ok(sample_claims()));
}

#[test]
fn auth_finish_steps() {
    assert_eq!(auth_finish(sample_claims(), Err(())), Err(AuthFailure::Internal));
    assert_eq!(auth_finish(sample_claims(), Ok(true)), Err(AuthFailure::Revoked));
    let u = auth_finish(sample_claims(), Ok(false)).unwrap();
    assert_eq!(u.id, 0x0123_4567_89ab_cdef_0f1e_2d3c_4b5a_6978);
    assert_eq!(u.email, "bob@example.com");
    assert_eq!(u.role, "admin");
    assert_eq!(u.jti, "11111111-2222-4333-8444-555555555555");
    assert_eq!(u.exp, 1_700_086_400);
}

#[test]
fn refusal_messages() {
    assert_eq!(AuthFailure::MissingToken.message(), "Token manquant");
    assert_eq!(AuthFailure::InvalidToken.message(), "Token invalide ou expiré");
    assert_eq!(AuthFailure::Internal.message(), "Erreur interne");
    assert_eq!(AuthFailure::Revoked.message(), "Token révoqué");
    let body = unauthorized(AuthFailure::Revoked);
    assert_eq!(body.status, "error");
    assert_eq!(body.message.as_deref(), Some("Token révoqué"));
    assert_eq!(body.data, None);
    assert_eq!(body.errors, None);
}
