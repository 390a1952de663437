//! Logout: the token that authenticated the request is put on the revocation
//! list, and entries whose token has expired are purged from it.

use vstd::prelude::*;
use crate::auth::{finish_outcome, is_user_of, AuthFailure, AuthenticatedUser};
use crate::jwt::{now_timestamp, ClaimsView, TIMESTAMP_BOUND};
use crate::response::{is_error_of, ApiResponse, Reply, Status};

verus! {

/// An entry of the revocation list: a token id, its owner, and the token's
/// expiry (after which the entry may be purged).
#[derive(Debug, Clone, PartialEq, Eq)]
pub struct RevocationEntry {
    pub jti: String,
    pub user_id: u128,
    pub exp: i64,
}

/// The outcome of a logout: the reply, and the cutoff of the purge to run
/// (entries with an expiry strictly before it are deleted), if any.
#[derive(Debug, Clone, PartialEq, Eq)]
pub struct LogoutOutcome {
    pub reply: Reply<()>,
    pub purge_expired_before: Option<i64>,
}

/// The revocation list as a map from token id to expiry.
pub type RevocationList = Map<Seq<char>, i64>;

/// The list after an entry is inserted.
pub open spec fn list_insert(list: RevocationList, e: RevocationEntry) -> RevocationList {
    list.insert(e.jti@, e.exp)
}

/// An entry whose expiry is before the cutoff is purged.
pub open spec fn is_expired(exp: i64, cutoff: i64) -> bool {
    exp < cutoff
}

/// The list after the purge with this cutoff.
pub open spec fn list_purge(list: RevocationList, cutoff: i64) -> RevocationList {
    list.restrict(list.dom().filter(|j: Seq<char>| !is_expired(list[j], cutoff)))
}

/// What the revocation lookup of a token id answers.
pub open spec fn lookup(list: RevocationList, jti: Seq<char>) -> Result<bool, ()> {
    Ok(list.dom().contains(jti))
}

/// First step of a logout: the entry that revokes the token the request was
/// authenticated with.
pub fn logout(user: &AuthenticatedUser) -> (e: RevocationEntry)
    ensures
        e.jti@ == user.jti@,
        e.user_id == user.id,
        e.exp == user.exp,
{
    RevocationEntry { jti: user.jti.clone(), user_id: user.id, exp: user.exp }
}

/// How long, in seconds, after its expiry a token still passes the expiry
/// check of the token decoder (`jsonwebtoken`'s default validation leeway).
pub const EXPIRY_LEEWAY_SECS: i64 = 60;

/// A token with expiry `exp` still passes the decoder's expiry check at Unix
/// time `now`.
pub open spec fn passes_expiry_check(exp: i64, now: int) -> bool {
    now <= exp + EXPIRY_LEEWAY_SECS
}

/// Last step of a logout: the reply, given what inserting the entry gave (the
/// store's error as text). Once the entry is stored, the reply is a 200 whose
/// envelope has status `"error"` and the message `Déconnexion réussie`, and
/// the entries of tokens that no longer pass the expiry check are to be
/// purged: those whose expiry is more than `EXPIRY_LEEWAY_SECS` before the
/// current time.
pub fn logout_reply(inserted: Result<(), String>) -> (o: LogoutOutcome)
    ensures
        match inserted {
            Ok(_) => {
                &&& o.reply.status == Status::Success
                &&& is_error_of(o.reply.body, "Déconnexion réussie"@, None)
                &&& o.purge_expired_before matches Some(t) && 0 <= t + EXPIRY_LEEWAY_SECS < TIMESTAMP_BOUND
            },
            Err(e) => {
                &&& o.reply.status == Status::InternalServerError
                &&& is_error_of(o.reply.body, e@, None)
                &&& o.purge_expired_before is None
            },
        },
{
    match inserted {
        Ok(_) => {
            let now = now_timestamp();
            LogoutOutcome {
                reply: Reply { status: Status::Success, body: ApiResponse::errors("Déconnexion réussie", None) },
                purge_expired_before: Some(now - EXPIRY_LEEWAY_SECS),
            }
        },
        Err(e) => LogoutOutcome {
            reply: Reply { status: Status::InternalServerError, body: ApiResponse::errors(e.as_str(), None) },
            purge_expired_before: None,
        },
    }
}

/// A logged-out token is never accepted again. Let `logout` make the entry
/// for a user authenticated by claims `c`, the entry be stored, and the purge
/// of `logout_reply` run at Unix time `now` (cutoff `now - EXPIRY_LEEWAY_SECS`).
/// If the token still passes the expiry check at `now`, its entry survives
/// the purge, the lookup of its id answers revoked and the request is refused
/// as `Revoked`; otherwise it fails the expiry check at every later time.
pub proof fn lemma_logged_out_token_refused(
    list: RevocationList,
    u: AuthenticatedUser,
    c: ClaimsView,
    e: RevocationEntry,
    now: i64,
)
    requires
        is_user_of(u, c),
        e.jti@ == u.jti@,
        e.exp == u.exp,
        0 <= now < TIMESTAMP_BOUND,
    ensures
        passes_expiry_check(c.exp as i64, now as int) ==> {
            let purged = list_purge(list_insert(list, e), (now - EXPIRY_LEEWAY_SECS) as i64);
            &&& lookup(purged, c.jti) == Ok::<bool, ()>(true)
            &&& finish_outcome(c, lookup(purged, c.jti)) == Err::<ClaimsView, AuthFailure>(AuthFailure::Revoked)
        },
        !passes_expiry_check(c.exp as i64, now as int) ==> forall|later: int|
            later >= now ==> !#[trigger] passes_expiry_check(c.exp as i64, later),
{
    let cutoff = (now - EXPIRY_LEEWAY_SECS) as i64;
    let l = list_insert(list, e);
    assert(l.dom().contains(c.jti));
    if passes_expiry_check(c.exp as i64, now as int) {
        assert(l[c.jti] == e.exp);
        assert(l.dom().filter(|j: Seq<char>| !is_expired(l[j], cutoff)).contains(c.jti));
    }
}

/// A purge removes exactly the expired entries: an entry stays if and only if
/// its expiry is not before the cutoff, and those that stay keep their expiry.
pub proof fn lemma_purge_removes_only_expired(list: RevocationList, cutoff: i64, jti: Seq<char>)
    ensures
        list_purge(list, cutoff).dom().contains(jti) <==> (list.dom().contains(jti) && !is_expired(list[jti], cutoff)),
        list_purge(list, cutoff).dom().contains(jti) ==> list_purge(list, cutoff)[jti] == list[jti],
{
}

} // verus!
