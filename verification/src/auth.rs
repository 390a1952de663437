//! Authentication of a request: the bearer token of the `Authorization`
//! header, its claims, and the revocation list, checked in that order.
//!
//! The caller performs the steps that need the outside world (decoding the
//! token, asking the store whether its id is revoked) and hands each result
//! to the next step here.

use vstd::prelude::*;
use crate::jwt::{Claims, ClaimsView};
use crate::response::ApiResponse;

verus! {

/// The user a request is authenticated as, from the claims of its token.
#[derive(Debug, Clone, PartialEq, Eq)]
pub struct AuthenticatedUser {
    pub id: u128,
    pub email: String,
    pub role: String,
    /// The id of the token that authenticated the request.
    pub jti: String,
    /// The token's expiry, as a Unix timestamp.
    pub exp: i64,
}

/// Why a request was not authenticated.
#[derive(Debug, Clone, Copy, PartialEq, Eq, Structural)]
pub enum AuthFailure {
    /// No `Bearer` token in the `Authorization` header.
    MissingToken,
    /// The token's signature or expiry did not check out.
    InvalidToken,
    /// The store could not be asked.
    Internal,
    /// The token was revoked by a logout.
    Revoked,
}

impl AuthFailure {
    /// The message sent back for a failure.
    pub open spec fn message_of(self) -> Seq<char> {
        match self {
            AuthFailure::MissingToken => "Token manquant"@,
            AuthFailure::InvalidToken => "Token invalide ou expiré"@,
            AuthFailure::Internal => "Erreur interne"@,
            AuthFailure::Revoked => "Token révoqué"@,
        }
    }

    pub fn message(&self) -> (m: &'static str)
        ensures
            m@ == self.message_of(),
    {
        match self {
            AuthFailure::MissingToken => "Token manquant",
            AuthFailure::InvalidToken => "Token invalide ou expiré",
            AuthFailure::Internal => "Erreur interne",
            AuthFailure::Revoked => "Token révoqué",
        }
    }
}

/// The scheme prefix of a bearer credential.
pub open spec fn bearer_prefix() -> Seq<char> {
    "Bearer "@
}

/// The token of an `Authorization` header value: what follows `Bearer `.
pub open spec fn bearer_of(header: Seq<char>) -> Option<Seq<char>> {
    if header.len() >= 7 && header.subrange(0, 7) == bearer_prefix() {
        Some(header.subrange(7, header.len() as int))
    } else {
        None
    }
}

/// The token carried by an `Authorization` header, if any.
pub open spec fn token_of(header: Option<Seq<char>>) -> Option<Seq<char>> {
    match header {
        Some(h) => bearer_of(h),
        None => None,
    }
}

/// `u` is the user that the claims `c` authenticate.
pub open spec fn is_user_of(u: AuthenticatedUser, c: ClaimsView) -> bool {
    &&& u.id == c.sub
    &&& u.email@ == c.email
    &&& u.role@ == c.role
    &&& u.jti@ == c.jti
    &&& u.exp == c.exp as i64
}

/// The header value as text.
pub open spec fn header_view(header: Option<&str>) -> Option<Seq<char>> {
    match header {
        Some(h) => Some(h@),
        None => None,
    }
}

/// The decoded claims as values.
pub open spec fn claims_view(decoded: Option<Claims>) -> Option<ClaimsView> {
    match decoded {
        Some(c) => Some(c@),
        None => None,
    }
}

/// First step: a header without a bearer token is refused; otherwise its
/// token is to be decoded.
pub open spec fn start_outcome(header: Option<Seq<char>>) -> Result<Seq<char>, AuthFailure> {
    match token_of(header) {
        Some(t) => Ok(t),
        None => Err(AuthFailure::MissingToken),
    }
}

/// Second step: a token that did not decode is refused, and so is every
/// request while the store is out of reach.
pub open spec fn check_outcome(decoded: Option<ClaimsView>, store_available: bool) -> Result<ClaimsView, AuthFailure> {
    match decoded {
        None => Err(AuthFailure::InvalidToken),
        Some(c) => if store_available {
            Ok(c)
        } else {
            Err(AuthFailure::Internal)
        },
    }
}

/// Last step: what the revocation lookup of the token id answered
/// (`Ok(true)`: revoked, `Err`: the store failed).
pub open spec fn finish_outcome(c: ClaimsView, revoked: Result<bool, ()>) -> Result<ClaimsView, AuthFailure> {
    match revoked {
        Err(_) => Err(AuthFailure::Internal),
        Ok(true) => Err(AuthFailure::Revoked),
        Ok(false) => Ok(c),
    }
}

/// The outcome of authenticating a request: the three steps in order, the
/// first refusal ending it.
pub open spec fn auth_outcome(
    header: Option<Seq<char>>,
    decoded: Option<ClaimsView>,
    store_available: bool,
    revoked: Result<bool, ()>,
) -> Result<ClaimsView, AuthFailure> {
    match start_outcome(header) {
        Err(f) => Err(f),
        Ok(_) => match check_outcome(decoded, store_available) {
            Err(f) => Err(f),
            Ok(c) => finish_outcome(c, revoked),
        },
    }
}

/// The token of an `Authorization` header value: the text after `Bearer `.
pub fn bearer_token(header: &str) -> (t: Option<String>)
    ensures
        t matches Some(s) ==> bearer_of(header@) == Some(s@),
        t is None ==> bearer_of(header@) is None,
{
    let prefix = "Bearer ";
    proof {
        reveal_strlit("Bearer ");
    }
    let n = header.unicode_len();
    if n < 7 {
        return None;
    }
    let mut i: usize = 0;
    while i < 7
        invariant
            i <= 7,
            n == header@.len(),
            n >= 7,
            prefix@ == bearer_prefix(),
            prefix@.len() == 7,
            forall|k: int| 0 <= k < i ==> header@[k] == prefix@[k],
        decreases 7 - i,
    {
        if header.get_char(i) != prefix.get_char(i) {
            assert(header@.subrange(0, 7)[i as int] != bearer_prefix()[i as int]);
            return None;
        }
        i = i + 1;
    }
    assert(header@.subrange(0, 7) =~= bearer_prefix());
    Some(String::from_str(header.substring_char(7, n)))
}

/// First step: the token to decode, or why there is none.
pub fn auth_start(header: Option<&str>) -> (r: Result<String, AuthFailure>)
    ensures
        match r {
            Ok(t) => start_outcome(header_view(header)) == Ok::<Seq<char>, AuthFailure>(t@),
            Err(f) => start_outcome(header_view(header)) == Err::<Seq<char>, AuthFailure>(f),
        },
{
    match header {
        Some(h) => match bearer_token(h) {
            Some(t) => Ok(t),
            None => Err(AuthFailure::MissingToken),
        },
        None => Err(AuthFailure::MissingToken),
    }
}

/// Second step: the decoded claims (`None` when the token did not decode or
/// validate) and whether the store is reachable; the claims whose id is to
/// be looked up, or why the request is refused.
pub fn auth_check_claims(decoded: Option<Claims>, store_available: bool) -> (r: Result<Claims, AuthFailure>)
    ensures
        match r {
            Ok(c) => check_outcome(claims_view(decoded), store_available) == Ok::<ClaimsView, AuthFailure>(c@),
            Err(f) => check_outcome(claims_view(decoded), store_available) == Err::<ClaimsView, AuthFailure>(f),
        },
{
    match decoded {
        None => Err(AuthFailure::InvalidToken),
        Some(c) => if store_available {
            Ok(c)
        } else {
            Err(AuthFailure::Internal)
        },
    }
}

/// Last step: the claims and the answer of the revocation lookup of their
/// token id (`Ok(true)`: revoked, `Err`: the store failed).
pub fn auth_finish(claims: Claims, revoked: Result<bool, ()>) -> (r: Result<AuthenticatedUser, AuthFailure>)
    ensures
        match r {
            Ok(u) => finish_outcome(claims@, revoked) == Ok::<ClaimsView, AuthFailure>(claims@) && is_user_of(u, claims@),
            Err(f) => finish_outcome(claims@, revoked) == Err::<ClaimsView, AuthFailure>(f),
        },
{
    match revoked {
        Err(_) => Err(AuthFailure::Internal),
        Ok(true) => Err(AuthFailure::Revoked),
        Ok(false) => {
            let exp = claims.exp as i64;
            Ok(AuthenticatedUser { id: claims.sub, email: claims.email, role: claims.role, jti: claims.jti, exp })
        },
    }
}

/// The body of a refusal: an error envelope with the failure's message.
pub fn unauthorized(failure: AuthFailure) -> (r: ApiResponse<()>)
    ensures
        crate::response::is_error_of(r, failure.message_of(), None),
{
    ApiResponse::<()>::errors(failure.message(), None)
}

/// A request is authenticated only when its header carries a bearer token,
/// the token decodes, the store answers, and the token's id is not revoked;
/// a token that decodes but whose id is on the revocation list is refused as
/// revoked.
pub proof fn lemma_authenticated_only_if_unrevoked(
    header: Option<Seq<char>>,
    decoded: Option<ClaimsView>,
    store_available: bool,
    revoked: Result<bool, ()>,
)
    ensures
        auth_outcome(header, decoded, store_available, revoked) is Ok ==> {
            &&& token_of(header) is Some
            &&& decoded is Some
            &&& store_available
            &&& revoked == Ok::<bool, ()>(false)
            &&& auth_outcome(header, decoded, store_available, revoked) == Ok::<ClaimsView, AuthFailure>(decoded->0)
        },
        (token_of(header) is Some && decoded is Some && store_available && revoked == Ok::<bool, ()>(true))
            ==> auth_outcome(header, decoded, store_available, revoked) == Err::<ClaimsView, AuthFailure>(AuthFailure::Revoked),
{
}

/// A header is the bearer prefix followed by the token it carries, and
/// prefixing any text with `Bearer ` gives a header that carries that text.
pub proof fn lemma_bearer_round_trip(header: Seq<char>, token: Seq<char>)
    ensures
        bearer_of(header) matches Some(t) ==> header == bearer_prefix() + t,
        bearer_of(bearer_prefix() + token) == Some(token),
{
    reveal_strlit("Bearer ");
    if bearer_of(header) is Some {
        assert(header =~= bearer_prefix() + header.subrange(7, header.len() as int));
    }
    let h = bearer_prefix() + token;
    assert(h.subrange(0, 7) =~= bearer_prefix());
    assert(h.subrange(7, h.len() as int) =~= token);
}

} // verus!
