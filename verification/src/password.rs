//! Password hashing with Argon2 (default parameters) in PHC string format.

use vstd::prelude::*;
use vstd::utf8::encode_utf8;
use argon2::password_hash::{PasswordHash, PasswordHasher, PasswordVerifier, SaltString};
use argon2::Argon2;

verus! {

#[verifier::external_type_specification]
#[verifier::external_body]
pub struct ExPasswordHashError(argon2::password_hash::Error);

/// Whether `PasswordHash::new` accepts the text as a PHC string.
pub uninterp spec fn phc_parses(phc: Seq<char>) -> bool;

/// Whether Argon2 with default settings, run with the parameters and salt that
/// the PHC string holds, gives back the hash it holds for this password.
pub uninterp spec fn argon2_matches(password: Seq<char>, phc: Seq<char>) -> bool;

/// The ways hashing or checking a password can fail.
#[derive(Debug, Clone, Copy, PartialEq, Eq, Structural)]
pub enum PasswordError {
    /// Argon2 refused to hash (a password longer than `MAX_PASSWORD_BYTES`).
    Hashing,
    /// The stored hash is not a PHC string.
    MalformedHash,
}

/// `phc` is a PHC string that verifies against `password`: what hashing
/// `password` gives.
pub open spec fn is_hash_of(password: Seq<char>, phc: Seq<char>) -> bool {
    phc_parses(phc) && argon2_matches(password, phc)
}

/// The first field of the PHC string, its algorithm identifier, is `ident`
/// (an identifier holds no `$`).
pub open spec fn phc_names(phc: Seq<char>, ident: Seq<char>) -> bool {
    &&& phc.len() >= ident.len() + 1
    &&& phc[0] == '$'
    &&& phc.subrange(1, ident.len() + 1 as int) == ident
    &&& (phc.len() == ident.len() + 1 || phc[ident.len() + 1 as int] == '$')
}

/// The PHC string names one of the Argon2 variants.
pub open spec fn phc_names_argon2(phc: Seq<char>) -> bool {
    phc_names(phc, "argon2d"@) || phc_names(phc, "argon2i"@) || phc_names(phc, "argon2id"@)
}

/// The text cannot be a PHC string: it is empty or does not begin with `$`.
pub open spec fn plainly_not_phc(phc: Seq<char>) -> bool {
    phc.len() == 0 || phc[0] != '$'
}

/// What checking `password` against the stored `phc` gives.
pub open spec fn verify_outcome(password: Seq<char>, phc: Seq<char>) -> Result<bool, PasswordError> {
    if phc_parses(phc) {
        Ok(argon2_matches(password, phc))
    } else {
        Err(PasswordError::MalformedHash)
    }
}

/// A character of the unpadded standard Base64 alphabet that PHC strings use.
pub open spec fn is_b64_char(c: char) -> bool {
    ('A' <= c && c <= 'Z') || ('a' <= c && c <= 'z') || ('0' <= c && c <= '9') || c == '+' || c == '/'
}

/// The PHC prefix of a hash made with Argon2's defaults: Argon2id, version 19,
/// 19 MiB of memory, 2 passes, 1 lane.
pub open spec fn default_phc_prefix() -> Seq<char> {
    "$argon2id$v=19$m=19456,t=2,p=1$"@
}

/// The shape of a PHC string made with Argon2's defaults and a 16-byte salt:
/// the prefix, the salt in 22 Base64 characters, `$`, and the 32-byte digest
/// in 43 Base64 characters.
pub open spec fn is_default_phc(h: Seq<char>) -> bool {
    &&& h.len() == 31 + 22 + 1 + 43
    &&& h.subrange(0, 31) == default_phc_prefix()
    &&& h[53] == '$'
    &&& forall|i: int| (31 <= i < 53 || 54 <= i < 97) ==> is_b64_char(#[trigger] h[i])
}

/// The longest password Argon2 accepts, in bytes.
pub const MAX_PASSWORD_BYTES: usize = 0xFFFF_FFFF;

/// Hashes `password` with `Argon2::default()` and a fresh salt, as a PHC string.
///
/// Calls `SaltString::generate` with `OsRng` (16 random bytes), then
/// `PasswordHasher::hash_password`, and formats the result with `to_string`.
/// Claimed: a PHC string that comes back is one that `PasswordHash::new`
/// parses and that `verify_password` with `Argon2::default()` accepts for the
/// same password (the verifier recomputes the hash with the algorithm,
/// version, parameters and salt written in the string); and hashing succeeds
/// exactly when the password's UTF-8 form is at most `MAX_PASSWORD_BYTES`
/// long (Argon2's password length check is the only one that can fail with a
/// generated 16-byte salt and the default parameters); and the string has the
/// shape `is_default_phc` (`Display` of `PasswordHash` writes `$argon2id`,
/// `$v=19`, `$m=19456,t=2,p=1`, then the salt and the digest in unpadded
/// Base64). Which salt and digest are written is not stated.
#[verifier::external_body]
fn argon2_hash_with_fresh_salt(password: &str) -> (r: Result<String, argon2::password_hash::Error>)
    ensures
        r matches Ok(h) ==> is_hash_of(password@, h@) && is_default_phc(h@),
        r is Ok <==> encode_utf8(password@).len() <= MAX_PASSWORD_BYTES,
{
    let salt = SaltString::generate(&mut argon2::password_hash::rand_core::OsRng);
    match Argon2::default().hash_password(password.as_bytes(), &salt) {
        Ok(h) => Ok(h.to_string()),
        Err(e) => Err(e),
    }
}

/// Parses `phc` with `PasswordHash::new` and, if it parses, checks `password`
/// against it with `Argon2::default().verify_password`.
///
/// Claimed: the result is an error exactly when the text does not parse, and
/// otherwise whether verification succeeded; both are named, not described.
/// Two facts of the source are stated besides: `PasswordHash::new` refuses an
/// empty text and one that does not begin with `$`; and verification fails
/// for a string whose algorithm is not Argon2d, Argon2i or Argon2id (the
/// Argon2 hasher refuses to recompute under another algorithm, and the error
/// becomes `false`).
#[verifier::external_body]
fn argon2_verify(password: &str, phc: &str) -> (r: Result<bool, argon2::password_hash::Error>)
    ensures
        r is Ok <==> phc_parses(phc@),
        r matches Ok(b) ==> b == argon2_matches(password@, phc@),
        plainly_not_phc(phc@) ==> r is Err,
        r matches Ok(b) ==> (b ==> phc_names_argon2(phc@)),
{
    let parsed = PasswordHash::new(phc)?;
    Ok(Argon2::default().verify_password(password.as_bytes(), &parsed).is_ok())
}

/// Hashes a password with a fresh random salt (Argon2id, default cost), in
/// PHC string format.
pub fn hash_password(password: &str) -> (r: Result<String, PasswordError>)
    ensures
        r matches Ok(h) ==> is_hash_of(password@, h@) && is_default_phc(h@),
        r matches Err(e) ==> e == PasswordError::Hashing,
        r is Ok <==> encode_utf8(password@).len() <= MAX_PASSWORD_BYTES,
{
    match argon2_hash_with_fresh_salt(password) {
        Ok(h) => Ok(h),
        Err(_) => Err(PasswordError::Hashing),
    }
}

/// Checks a password against a stored PHC hash: `Ok(true)` when it matches,
/// `Ok(false)` when it does not, an error when the stored hash is not a PHC
/// string.
pub fn verify_password(password: &str, hash: &str) -> (r: Result<bool, PasswordError>)
    ensures
        r == verify_outcome(password@, hash@),
        r is Ok <==> phc_parses(hash@),
        r matches Ok(b) ==> b == argon2_matches(password@, hash@),
        plainly_not_phc(hash@) ==> r == Err::<bool, PasswordError>(PasswordError::MalformedHash),
        !phc_names_argon2(hash@) ==> r != Ok::<bool, PasswordError>(true),
{
    match argon2_verify(password, hash) {
        Ok(b) => Ok(b),
        Err(_) => Err(PasswordError::MalformedHash),
    }
}

/// A password checks out against every hash made of it: whatever
/// `hash_password(p)` returns as `Ok(h)`, `verify_password(p, h)` is `Ok(true)`.
pub proof fn lemma_verify_accepts_own_hash(password: Seq<char>, phc: Seq<char>)
    requires
        is_hash_of(password, phc),
    ensures
        verify_outcome(password, phc) == Ok::<bool, PasswordError>(true),
{
}

/// Checking a password against a stored hash is Argon2's verdict on that
/// exact password: it is an error exactly when the hash does not parse, and
/// otherwise `Ok(true)` exactly when Argon2 matches the password, so any
/// password that Argon2 does not match against the hash is refused.
pub proof fn lemma_verify_is_exact_match(password: Seq<char>, other: Seq<char>, phc: Seq<char>)
    ensures
        verify_outcome(password, phc) is Ok <==> phc_parses(phc),
        verify_outcome(password, phc) == Ok::<bool, PasswordError>(true) ==> argon2_matches(password, phc),
        phc_parses(phc) && !argon2_matches(password, phc) ==> verify_outcome(password, phc) == Ok::<bool, PasswordError>(
            false,
        ),
        is_hash_of(other, phc) && !argon2_matches(password, phc) ==> verify_outcome(password, phc) == Ok::<
            bool,
            PasswordError,
        >(false),
{
}

} // verus!
