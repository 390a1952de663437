//! The validation rules of the request bodies: a password of at least 8
//! characters on registration, a valid e-mail address on login.

use vstd::prelude::*;
use crate::response::{FieldError, ParamValue};
use crate::user::{CreateUser, LoginRequest};

verus! {

/// The minimum length of a password, in characters.
pub const PASSWORD_MIN_LEN: usize = 8;

/// Whether the `validator` crate's e-mail rule (the HTML5 definition of a
/// valid e-mail address) accepts the text.
pub uninterp spec fn valid_email(s: Seq<char>) -> bool;

/// Applies `validator::ValidateEmail::validate_email` to the text.
///
/// Claimed: the result is `valid_email` of the text, and an empty text or one
/// without `@` is refused (the first test in the crate's source).
#[verifier::external_body]
fn email_rule(s: &str) -> (b: bool)
    ensures
        b == valid_email(s@),
        (s@.len() == 0 || !s@.contains('@')) ==> !b,
{
    validator::ValidateEmail::validate_email(&s)
}

/// The message of the password length rule.
pub open spec fn password_length_message() -> Seq<char> {
    "Le mot de passe doit faire au moins 8 caractères"@
}

/// `e` reports that `password` is shorter than the minimum.
pub open spec fn is_password_length_error(e: FieldError, password: Seq<char>) -> bool {
    &&& e.field@ == "password"@
    &&& e.code@ == "length"@
    &&& e.message matches Some(m) && m@ == password_length_message()
    &&& e.params@.len() == 2
    &&& e.params@[0].0@ == "min"@
    &&& e.params@[0].1 == ParamValue::Number(PASSWORD_MIN_LEN as u64)
    &&& e.params@[1].0@ == "value"@
    &&& e.params@[1].1 matches ParamValue::Text(v) && v@ == password
}

/// `e` reports that `email` is not a valid e-mail address.
pub open spec fn is_email_error(e: FieldError, email: Seq<char>) -> bool {
    &&& e.field@ == "email"@
    &&& e.code@ == "email"@
    &&& e.message is None
    &&& e.params@.len() == 1
    &&& e.params@[0].0@ == "value"@
    &&& e.params@[0].1 matches ParamValue::Text(v) && v@ == email
}

/// A registration request is valid when its password has at least 8 characters.
pub open spec fn create_user_is_valid(req: CreateUser) -> bool {
    req.password@.len() >= PASSWORD_MIN_LEN
}

/// A login request is valid when its e-mail address is.
pub open spec fn login_is_valid(req: LoginRequest) -> bool {
    valid_email(req.email@)
}

/// Checks a registration request; on failure, the one field error found.
pub fn validate_create_user(req: &CreateUser) -> (r: Result<(), Vec<FieldError>>)
    ensures
        r is Ok <==> create_user_is_valid(*req),
        r is Ok <==> req.password@.len() >= 8,
        r matches Err(es) ==> es@.len() == 1 && is_password_length_error(es@[0], req.password@),
{
    if req.password.as_str().unicode_len() >= PASSWORD_MIN_LEN {
        Ok(())
    } else {
        let mut params: Vec<(String, ParamValue)> = Vec::new();
        params.push((String::from_str("min"), ParamValue::Number(8)));
        params.push((String::from_str("value"), ParamValue::Text(req.password.clone())));
        let e = FieldError {
            field: String::from_str("password"),
            code: String::from_str("length"),
            message: Some(String::from_str("Le mot de passe doit faire au moins 8 caractères")),
            params,
        };
        let mut es: Vec<FieldError> = Vec::new();
        es.push(e);
        Err(es)
    }
}

/// Checks a login request; on failure, the one field error found.
pub fn validate_login(req: &LoginRequest) -> (r: Result<(), Vec<FieldError>>)
    ensures
        r is Ok <==> login_is_valid(*req),
        r is Ok <==> valid_email(req.email@),
        r matches Err(es) ==> es@.len() == 1 && is_email_error(es@[0], req.email@),
        (req.email@.len() == 0 || !req.email@.contains('@')) ==> r is Err,
{
    if email_rule(req.email.as_str()) {
        Ok(())
    } else {
        let mut params: Vec<(String, ParamValue)> = Vec::new();
        params.push((String::from_str("value"), ParamValue::Text(req.email.clone())));
        let e = FieldError {
            field: String::from_str("email"),
            code: String::from_str("email"),
            message: None,
            params,
        };
        let mut es: Vec<FieldError> = Vec::new();
        es.push(e);
        Err(es)
    }
}

/// The registration rule is the password length alone: a request passes
/// exactly when its password has at least 8 characters, however long it is
/// and whatever the other fields hold.
pub proof fn lemma_registration_rule_is_password_length(req: CreateUser, other: CreateUser)
    ensures
        create_user_is_valid(req) <==> req.password@.len() >= 8,
        req.password@ == other.password@ ==> (create_user_is_valid(req) <==> create_user_is_valid(other)),
        req.password@.len() >= 8 && other.password@.len() >= req.password@.len() ==> create_user_is_valid(other),
{
}

/// The login rule is the e-mail rule alone: a request passes exactly when the
/// validator's e-mail rule accepts its address, whatever the password.
pub proof fn lemma_login_rule_is_email_rule(req: LoginRequest, other: LoginRequest)
    ensures
        login_is_valid(req) <==> valid_email(req.email@),
        req.email@ == other.email@ ==> (login_is_valid(req) <==> login_is_valid(other)),
{
}

} // verus!
