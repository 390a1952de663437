//! Access tokens: HS256 JSON Web Tokens valid for 24 hours, each with a
//! random identifier (`jti`) so that a single token can be revoked.

use vstd::prelude::*;
use crate::ids::{hyphenated, is_v4, new_v4, uuid_to_string};

verus! {

#[verifier::external_type_specification]
#[verifier::external_body]
pub struct ExJwtError(jsonwebtoken::errors::Error);

/// How long a token stays valid, in seconds (24 hours).
pub const TOKEN_LIFETIME_SECS: i64 = 86400;

/// An exclusive upper bound of the Unix timestamps that the clock can give
/// (chrono represents years up to 262142).
pub const TIMESTAMP_BOUND: i64 = 10_000_000_000_000;

/// The claims carried by a token.
#[derive(Debug, Clone, PartialEq, Eq)]
pub struct Claims {
    /// Subject: the user's id.
    pub sub: u128,
    /// Expiry, as a Unix timestamp.
    pub exp: usize,
    /// Issue time, as a Unix timestamp.
    pub iat: usize,
    /// The token's own id, the key under which it is revoked.
    pub jti: String,
    pub email: String,
    pub role: String,
}

/// The claims as mathematical values.
pub struct ClaimsView {
    pub sub: u128,
    pub exp: usize,
    pub iat: usize,
    pub jti: Seq<char>,
    pub email: Seq<char>,
    pub role: Seq<char>,
}

impl View for Claims {
    type V = ClaimsView;

    open spec fn view(&self) -> ClaimsView {
        ClaimsView {
            sub: self.sub,
            exp: self.exp,
            iat: self.iat,
            jti: self.jti@,
            email: self.email@,
            role: self.role@,
        }
    }
}

/// The compact serialisation that `jsonwebtoken::encode` gives for these
/// claims (in this field order) under the default header (HS256) and the
/// HMAC key made of the secret's bytes.
pub uninterp spec fn jwt_hs256(claims: ClaimsView, secret: Seq<char>) -> Seq<char>;

/// The claims issued at Unix time `now` for a user, with the token id `jti`.
pub open spec fn claims_at(user_id: u128, email: Seq<char>, role: Seq<char>, now: i64, jti: Seq<char>) -> ClaimsView {
    ClaimsView {
        sub: user_id,
        exp: (now + TOKEN_LIFETIME_SECS) as usize,
        iat: now as usize,
        jti: jti,
        email: email,
        role: role,
    }
}

/// The token issued to a user at some time the clock can give, with a fresh
/// random version-4 token id.
pub open spec fn is_token_for(token: Seq<char>, user_id: u128, email: Seq<char>, role: Seq<char>, secret: Seq<char>) -> bool {
    exists|now: i64, jti: u128|
        0 <= now < TIMESTAMP_BOUND && is_v4(jti) && token == jwt_hs256(
            #[trigger] claims_at(user_id, email, role, now, hyphenated(jti)),
            secret,
        )
}

/// Why a token could not be made.
#[derive(Debug, Clone, Copy, PartialEq, Eq, Structural)]
pub enum TokenError {
    Encoding,
}

/// The current Unix time in seconds.
///
/// Calls `chrono::Utc::now().timestamp()`. The value depends on the clock;
/// claimed is only the range that `Utc::now` can return (it panics on a clock
/// before 1970, and chrono's dates end in year 262142).
#[verifier::external_body]
pub fn now_timestamp() -> (t: i64)
    ensures
        0 <= t < TIMESTAMP_BOUND,
{
    chrono::Utc::now().timestamp()
}

/// Signs the claims with `jsonwebtoken::encode` under `Header::default()`
/// (HS256) and `EncodingKey::from_secret` of the secret's bytes; the claims are
/// handed over as a JSON object with the fields in declaration order and the
/// subject in its hyphenated text form.
///
/// Claimed: the token is `jwt_hs256` of the claims and the secret, and
/// encoding succeeds (the key family matches HS256, a JSON object always
/// serialises, and HMAC signing does not fail).
#[verifier::external_body]
fn jwt_encode(claims: &Claims, secret: &str) -> (r: Result<String, jsonwebtoken::errors::Error>)
    ensures
        r is Ok,
        r matches Ok(t) ==> t@ == jwt_hs256(claims@, secret@),
{
    let mut m = serde_json::Map::new();
    m.insert("sub".to_string(), uuid::Uuid::from_u128(claims.sub).to_string().into());
    m.insert("exp".to_string(), claims.exp.into());
    m.insert("iat".to_string(), claims.iat.into());
    m.insert("jti".to_string(), claims.jti.clone().into());
    m.insert("email".to_string(), claims.email.clone().into());
    m.insert("role".to_string(), claims.role.clone().into());
    let key = jsonwebtoken::EncodingKey::from_secret(secret.as_bytes());
    jsonwebtoken::encode(&jsonwebtoken::Header::default(), &m, &key)
}

/// The claims of a token issued at Unix time `now` to a user, with token id
/// `jti`: valid from `now` for 24 hours.
pub fn build_claims(user_id: u128, email: &str, role: &str, now: i64, jti: String) -> (c: Claims)
    requires
        0 <= now < TIMESTAMP_BOUND,
    ensures
        c@ == claims_at(user_id, email@, role@, now, jti@),
{
    let exp: i64 = now + TOKEN_LIFETIME_SECS;
    Claims {
        sub: user_id,
        exp: exp as usize,
        iat: now as usize,
        jti: jti,
        email: String::from_str(email),
        role: String::from_str(role),
    }
}

/// Signs claims into a compact HS256 token with the given secret.
pub fn encode_claims(claims: &Claims, secret: &str) -> (r: Result<String, TokenError>)
    ensures
        r matches Ok(t) && t@ == jwt_hs256(claims@, secret@),
{
    match jwt_encode(claims, secret) {
        Ok(t) => Ok(t),
        Err(_) => Err(TokenError::Encoding),
    }
}

/// Issues a token for a user: issued now, expiring in 24 hours, with a fresh
/// random token id, signed with `secret`.
pub fn create_jwt(user_id: u128, email: &str, role: &str, secret: &str) -> (r: Result<String, TokenError>)
    ensures
        r matches Ok(t) && is_token_for(t@, user_id, email@, role@, secret@),
{
    let now = now_timestamp();
    let jti_id = new_v4();
    let jti = uuid_to_string(jti_id);
    let claims = build_claims(user_id, email, role, now, jti);
    let r = encode_claims(&claims, secret);
    assert(claims@ == claims_at(user_id, email@, role@, now, hyphenated(jti_id)));
    r
}

} // verus!
