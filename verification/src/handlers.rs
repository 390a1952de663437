//! The decisions of the HTTP endpoints. Each endpoint that waits on the store
//! is split at that point: the first function says what to ask the store (or
//! replies at once), the second turns the store's answer into the reply.

use vstd::prelude::*;
use crate::ids::{is_v4, new_v4};
use crate::jwt::{create_jwt, is_token_for};
use crate::password::{hash_password, is_default_phc, is_hash_of, verify_outcome, verify_password, MAX_PASSWORD_BYTES};
use vstd::utf8::encode_utf8;
use crate::response::{is_error_of, is_success_of, validation_message, ApiResponse, Reply, Status, TextReply};
use crate::user::{AuthResponse, CreateUser, LoginRequest, NewUser, User};
use crate::validation::{
    create_user_is_valid, is_email_error, is_password_length_error, login_is_valid, validate_create_user, validate_login,
};

verus! {

/// The reply is an error reply with this status, the validation message, and
/// exactly one field error, for which `is_field_error` holds.
pub open spec fn is_validation_reply<T>(r: Reply<T>, is_field_error: spec_fn(crate::response::FieldError) -> bool) -> bool {
    &&& r.status == Status::BadRequest
    &&& r.body.status@ == "error"@
    &&& r.body.message matches Some(m) && m@ == validation_message()
    &&& r.body.data is None
    &&& r.body.errors matches Some(es) && es@.len() == 1 && is_field_error(es@[0])
}

/// The reply is an error reply with this status and message, and no field errors.
pub open spec fn is_error_reply<T>(r: Reply<T>, status: Status, message: Seq<char>) -> bool {
    r.status == status && is_error_of(r.body, message, None)
}

/// The liveness probe's reply.
pub fn health_check() -> (r: Reply<String>)
    ensures
        r.status == Status::Success,
        r.body.status@ == "success"@,
        r.body.message is None,
        r.body.errors is None,
        r.body.data matches Some(d) && d@ == "API is up and running!"@,
{
    Reply {
        status: Status::Success,
        body: ApiResponse::success(String::from_str("API is up and running!"), "Serveur en marche"),
    }
}

/// The store probe's plain-text reply, given the outcome of pinging the store
/// (the error as text).
pub fn health_db_check(ping: Result<(), String>) -> (r: TextReply)
    ensures
        match ping {
            Ok(_) => r.status == Status::Success && r.body@ == "La base de données répond parfaitement !"@,
            Err(e) => r.status == Status::InternalServerError && r.body@ == "Erreur BDD : "@ + e@,
        },
{
    match ping {
        Ok(_) => TextReply { status: Status::Success, body: String::from_str("La base de données répond parfaitement !") },
        Err(e) => TextReply {
            status: Status::InternalServerError,
            body: String::from_str("Erreur BDD : ").concat(e.as_str()),
        },
    }
}

/// The placeholder user that `get_user` answers with.
pub open spec fn is_mock_user(u: User, id: u128) -> bool {
    &&& u.id == id
    &&& u.username@ == "mock_user"@
    &&& u.email@ == "mock_user@example.com"@
    &&& u.firstname@ == "Jean"@
    &&& u.lastname@ == "Dupont"@
    &&& u.password_hash@ == "hashed_password_placeholder"@
    &&& u.is_active
    &&& u.role@ == "user"@
}

/// The reply to a user lookup: a fixed placeholder user with the id asked for.
pub fn get_user(user_id: u128) -> (r: Reply<User>)
    ensures
        r.status == Status::Success,
        r.body.status@ == "success"@,
        r.body.message is None,
        r.body.errors is None,
        r.body.data matches Some(u) && is_mock_user(u, user_id),
{
    let mock_user = User {
        id: user_id,
        username: String::from_str("mock_user"),
        email: String::from_str("mock_user@example.com"),
        firstname: String::from_str("Jean"),
        lastname: String::from_str("Dupont"),
        password_hash: String::from_str("hashed_password_placeholder"),
        is_active: true,
        role: String::from_str("user"),
    };
    Reply { status: Status::Success, body: ApiResponse::success(mock_user, "Utilisateur récupéré avec succès") }
}

/// `u` is the row registered for the request `req`, apart from its id and hash.
pub open spec fn is_new_user_of(u: NewUser, req: CreateUser) -> bool {
    &&& u.username@ == req.username@
    &&& u.email@ == req.email@
    &&& u.firstname@ == req.firstname@
    &&& u.lastname@ == req.lastname@
    &&& u.is_active == req.is_active
}

/// First step of registration: the row to insert, or the reply to send at once.
///
/// A request whose password is shorter than 8 characters gets a 400 with the
/// field error; otherwise the password is hashed, and the row gets a fresh
/// random id and the hash (a 500 if hashing fails, which happens only for a
/// password longer than `MAX_PASSWORD_BYTES`).
pub fn create_user(req: &CreateUser) -> (r: Result<NewUser, Reply<User>>)
    ensures
        !create_user_is_valid(*req) ==> (r matches Err(rep) && is_validation_reply(
            rep,
            |e| is_password_length_error(e, req.password@),
        )),
        create_user_is_valid(*req) ==> (r is Ok <==> encode_utf8(req.password@).len() <= MAX_PASSWORD_BYTES),
        r is Ok <==> (req.password@.len() >= 8 && encode_utf8(req.password@).len() <= MAX_PASSWORD_BYTES),
        create_user_is_valid(*req) ==> match r {
            Ok(u) => {
                &&& is_new_user_of(u, *req)
                &&& is_v4(u.id)
                &&& is_hash_of(req.password@, u.password_hash@)
                &&& is_default_phc(u.password_hash@)
            },
            Err(rep) => {
                &&& is_error_reply(rep, Status::InternalServerError, "Erreur lors du hachage du mot de passe"@)
                &&& encode_utf8(req.password@).len() > MAX_PASSWORD_BYTES
            },
        },
{
    match validate_create_user(req) {
        Err(es) => {
            let body = ApiResponse::<()>::validation_error(es);
            return Err(Reply { status: Status::BadRequest, body: body.without_data() });
        },
        Ok(()) => {},
    }
    let hashed_password = match hash_password(req.password.as_str()) {
        Ok(h) => h,
        Err(_) => {
            return Err(
                Reply {
                    status: Status::InternalServerError,
                    body: ApiResponse::errors("Erreur lors du hachage du mot de passe", None),
                },
            );
        },
    };
    Ok(NewUser {
        id: new_v4(),
        username: req.username.clone(),
        email: req.email.clone(),
        firstname: req.firstname.clone(),
        lastname: req.lastname.clone(),
        password_hash: hashed_password,
        is_active: req.is_active,
    })
}

/// Last step of registration: the reply, given what inserting the row gave
/// (the stored user, or the store's error as text).
pub fn create_user_reply(inserted: Result<User, String>) -> (r: Reply<User>)
    ensures
        match inserted {
            Ok(u) => r.status == Status::Created && is_success_of(r.body, u),
            Err(e) => is_error_reply(r, Status::InternalServerError, e@),
        },
{
    match inserted {
        Ok(user_model) => Reply {
            status: Status::Created,
            body: ApiResponse::success(user_model, "Nouvel utilisateur enrégistré avec succès"),
        },
        Err(e) => Reply { status: Status::InternalServerError, body: ApiResponse::errors(e.as_str(), None) },
    }
}

/// What a login comes to, given the password sent and the user lookup by
/// e-mail address (the store's error as text).
pub enum LoginDecision {
    /// The user exists and the password checks out against the stored hash.
    Grant(User),
    /// No such user, or the password does not check out.
    Deny,
    /// The store failed.
    StoreError(Seq<char>),
}

pub open spec fn login_decision(password: Seq<char>, lookup: Result<Option<User>, String>) -> LoginDecision {
    match lookup {
        Err(e) => LoginDecision::StoreError(e@),
        Ok(None) => LoginDecision::Deny,
        Ok(Some(u)) => if verify_outcome(password, u.password_hash@) == Ok::<bool, crate::password::PasswordError>(true) {
            LoginDecision::Grant(u)
        } else {
            LoginDecision::Deny
        },
    }
}

/// First step of a login: the e-mail address to look the user up by, or the
/// 400 reply for an invalid address.
pub fn login(req: &LoginRequest) -> (r: Result<String, Reply<AuthResponse>>)
    ensures
        login_is_valid(*req) ==> (r matches Ok(email) && email@ == req.email@),
        r is Ok <==> crate::validation::valid_email(req.email@),
        (req.email@.len() == 0 || !req.email@.contains('@')) ==> r is Err,
        !login_is_valid(*req) ==> (r matches Err(rep) && is_validation_reply(rep, |e| is_email_error(e, req.email@))),
{
    match validate_login(req) {
        Err(es) => {
            let body = ApiResponse::<()>::validation_error(es);
            Err(Reply { status: Status::BadRequest, body: body.without_data() })
        },
        Ok(()) => Ok(req.email.clone()),
    }
}

/// Last step of a login: the reply, given the user lookup and the secret that
/// tokens are signed with. A granted login answers with a fresh 24-hour token
/// for the user; an unknown address and a wrong password get the same 401.
pub fn login_reply(req: &LoginRequest, lookup: Result<Option<User>, String>, secret: &str) -> (r: Reply<AuthResponse>)
    ensures
        match login_decision(req.password@, lookup) {
            LoginDecision::Grant(u) => {
                &&& r.status == Status::Success
                &&& r.body.status@ == "success"@
                &&& r.body.message is None
                &&& r.body.errors is None
                &&& r.body.data matches Some(a) && a.user == u && is_token_for(a.token@, u.id, u.email@, u.role@, secret@)
            },
            LoginDecision::Deny => is_error_reply(r, Status::Unauthorized, "Identifiants invalides"@),
            LoginDecision::StoreError(e) => is_error_reply(r, Status::InternalServerError, e),
        },
{
    match lookup {
        Ok(Some(user)) => match verify_password(req.password.as_str(), user.password_hash.as_str()) {
            Ok(true) => match create_jwt(user.id, user.email.as_str(), user.role.as_str(), secret) {
                Ok(token) => {
                    let response = AuthResponse { token, user };
                    Reply { status: Status::Success, body: ApiResponse::success(response, "Connexion réussie") }
                },
                Err(_) => Reply {
                    status: Status::InternalServerError,
                    body: ApiResponse::errors("Échec de génération du jeton", None),
                },
            },
            _ => Reply { status: Status::Unauthorized, body: ApiResponse::errors("Identifiants invalides", None) },
        },
        Ok(None) => Reply { status: Status::Unauthorized, body: ApiResponse::errors("Identifiants invalides", None) },
        Err(e) => Reply { status: Status::InternalServerError, body: ApiResponse::errors(e.as_str(), None) },
    }
}

/// A login is granted only to an existing user whose stored hash the
/// password checks out against; an unknown address and a wrong password come
/// to the same refusal.
pub proof fn lemma_login_grants_only_matching_password(password: Seq<char>, lookup: Result<Option<User>, String>)
    ensures
        login_decision(password, lookup) matches LoginDecision::Grant(u) ==> {
            &&& lookup == Ok::<Option<User>, String>(Some(u))
            &&& verify_outcome(password, u.password_hash@) == Ok::<bool, crate::password::PasswordError>(true)
            &&& crate::password::argon2_matches(password, u.password_hash@)
        },
        (lookup matches Ok(Some(u)) && !crate::password::argon2_matches(password, u.password_hash@))
            ==> login_decision(password, lookup) == LoginDecision::Deny,
        lookup == Ok::<Option<User>, String>(None) ==> login_decision(password, lookup) == LoginDecision::Deny,
        (lookup matches Ok(Some(u)) && verify_outcome(password, u.password_hash@) != Ok::<bool, crate::password::PasswordError>(true))
            ==> login_decision(password, lookup) == LoginDecision::Deny,
{
}

/// A user registered with a password logs in with it: whatever hash
/// registration stored, looking the user up and sending the same password is
/// granted.
pub proof fn lemma_registered_password_logs_in(password: Seq<char>, u: User)
    requires
        is_hash_of(password, u.password_hash@),
    ensures
        login_decision(password, Ok(Some(u))) == LoginDecision::Grant(u),
{
    crate::password::lemma_verify_accepts_own_hash(password, u.password_hash@);
}

} // verus!
