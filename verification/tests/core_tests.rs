use auth_service::ids::uuid_to_string;
use auth_service::password::{hash_password, verify_password, PasswordError};
use auth_service::response::{ApiResponse, FieldError, ParamValue, Status};
use auth_service::user::{CreateUser, LoginRequest};
use auth_service::validation::{validate_create_user, validate_login};

#[test]
fn status_codes() {
    assert_eq!(Status::Success.code(), 200);
    assert_eq!(Status::Created.code(), 201);
    assert_eq!(Status::BadRequest.code(), 400);
    assert_eq!(Status::Unauthorized.code(), 401);
    assert_eq!(Status::InternalServerError.code(), 500);
}

#[test]
fn success_envelope_drops_message() {
    let r = ApiResponse::success(42u32, "ignored");
    assert_eq!(r.status, "success");
    assert_eq!(r.message, None);
    assert_eq!(r.data, Some(42));
    assert!(r.errors.is_none());
}

#[test]
fn error_envelope_keeps_message() {
    let r = ApiResponse::<u32>::errors("boom", None);
    assert_eq!(r.status, "error");
    assert_eq!(r.message.as_deref(), Some("boom"));
    assert_eq!(r.data, None);
    assert!(r.errors.is_none());
}

#[test]
fn validation_error_envelope() {
    let e = FieldError { field: "f".to_string(), code: "c".to_string(), message: None, params: vec![] };
    let r = ApiResponse::<u8>::validation_error(vec![e.clone()]);
    assert_eq!(r.status, "error");
    assert_eq!(r.message.as_deref(), Some("Erreur de validation des données"));
    assert_eq!(r.data, None);
    assert_eq!(r.errors, Some(vec![e]));
    let typed: ApiResponse<String> = r.clone().without_data();
    assert_eq!(typed.status, r.status);
    assert_eq!(typed.errors, r.errors);
}

#[test]
fn uuid_text_matches_uuid_crate() {
    let samples: [u128; 5] = [0, u128::MAX, 1, 0x0123_4567_89ab_cdef_0f1e_2d3c_4b5a_6978, 0xa1a2a3a4_b1b2_c1c2_d1d2_d3d4d5d6d7d8];
    for v in samples {
        assert_eq!(uuid_to_string(v), uuid::Uuid::from_u128(v).to_string());
    }
    assert_eq!(uuid_to_string(0x0123_4567_89ab_cdef_0f1e_2d3c_4b5a_6978), "01234567-89ab-cdef-0f1e-2d3c4b5a6978");
    for _ in 0..20 {
        let u = uuid::Uuid::new_v4();
        assert_eq!(uuid_to_string(u.as_u128()), u.to_string());
    }
}

#[test]
fn hash_then_verify_accepts_same_password() {
    let h = hash_password("correct horse").unwrap();
    assert!(h.starts_with("$argon2id$"));
    assert_eq!(verify_password("correct horse", &h), Ok(true));
}

#[test]
fn verify_rejects_other_password() {
    let h = hash_password("secret-password").unwrap();
    assert_eq!(verify_password("secret-passwore", &h), Ok(false));
}

#[test]
fn two_hashes_of_one_password_differ_but_both_verify() {
    let a = hash_password("pw12345678").unwrap();
    let b = hash_password("pw12345678").unwrap();
    assert_ne!(a, b);
    assert_eq!(verify_password("pw12345678", &a), Ok(true));
    assert_eq!(verify_password("pw12345678", &b), Ok(true));
}

#[test]
fn verify_malformed_hash_is_error() {
    assert_eq!(verify_password("x", "not a phc string"), Err(PasswordError::MalformedHash));
    assert_eq!(verify_password("x", ""), Err(PasswordError::MalformedHash));
    assert_eq!(verify_password("password123", "not-a-phc-hash"), Err(PasswordError::MalformedHash));
}

#[test]
fn verify_non_argon2_phc_is_false() {
    let pbkdf2 = "$pbkdf2-sha256$i=1000$c2FsdHNhbHQ$aGFzaGhhc2hoYXNoaGFzaA";
    assert!(argon2::password_hash::PasswordHash::new(pbkdf2).is_ok());
    assert_eq!(verify_password("hashhashhashhash", pbkdf2), Ok(false));
}

fn create_req(password: &str) -> CreateUser {
    CreateUser {
        username: "alice".to_string(),
        email: "alice@example.com".to_string(),
        firstname: "Alice".to_string(),
        lastname: "Martin".to_string(),
        password: password.to_string(),
        is_active: true,
    }
}

#[test]
fn password_of_seven_chars_is_rejected() {
    let errs = validate_create_user(&create_req("1234567")).unwrap_err();
    assert_eq!(errs.len(), 1);
    let e = &errs[0];
    assert_eq!(e.field, "password");
    assert_eq!(e.code, "length");
    assert_eq!(e.message.as_deref(), Some("Le mot de passe doit faire au moins 8 caractères"));
    assert_eq!(
        e.params,
        vec![
            ("min".to_string(), ParamValue::Number(8)),
            ("value".to_string(), ParamValue::Text("1234567".to_string())),
        ]
    );
}

#[test]
fn password_of_eight_chars_is_accepted() {
    assert_eq!(validate_create_user(&create_req("12345678")), Ok(()));
}

#[test]
fn password_length_counts_characters_not_bytes() {
    // 8 characters, 16 bytes
    assert_eq!(validate_create_user(&create_req("éééééééé")), Ok(()));
    // 7 characters, 14 bytes
    assert!(validate_create_user(&create_req("ééééééé")).is_err());
    assert!(validate_create_user(&create_req("")).is_err());
}

#[test]
fn login_email_rule() {
    let ok = LoginRequest { email: "email@here.com".to_string(), password: "x".to_string() };
    assert_eq!(validate_login(&ok), Ok(()));
    for bad in ["", "no-at-sign", "a@", "@b.com", "two@@example.com"] {
        let req = LoginRequest { email: bad.to_string(), password: "x".to_string() };
        let errs = validate_login(&req).unwrap_err();
        assert_eq!(errs.len(), 1);
        assert_eq!(errs[0].field, "email");
        assert_eq!(errs[0].code, "email");
        assert_eq!(errs[0].message, None);
        assert_eq!(errs[0].params, vec![("value".to_string(), ParamValue::Text(bad.to_string()))]);
    }
}

#[test]
fn hash_has_default_phc_shape() {
    let h = hash_password("correct horse").unwrap();
    assert_eq!(h.len(), 97);
    assert!(h.starts_with("$argon2id$v=19$m=19456,t=2,p=1$"));
    assert_eq!(&h[53..54], "$");
    let b64 = |c: char| c.is_ascii_alphanumeric() || c == '+' || c == '/';
    assert!(h[31..53].chars().all(b64));
    assert!(h[54..].chars().all(b64));
    assert_ne!(h, "correct horse");
}
