use vstd::prelude::*;
use argon2::password_hash::rand_core::{OsRng, RngCore};
use argon2::password_hash::{PasswordHash, SaltString};
use argon2::{Argon2, PasswordHasher, PasswordVerifier};
use crate::response::{server_error, server_error_response, ApiResponse, ResponseView};

verus! {

/// Number of random salt bytes drawn for each new hash (argon2's recommended length).
pub const SALT_LENGTH: usize = 16;

/// The PHC string that `Argon2::default()` makes of `password` with the salt
/// bytes `salt` (encoded as the PHC salt field), or the error text.
pub uninterp spec fn argon2_phc(password: Seq<u8>, salt: Seq<u8>) -> Result<Seq<char>, Seq<char>>;

/// Whether `PasswordHash::new` parses `stored` as a PHC string.
pub uninterp spec fn phc_parses(stored: Seq<char>) -> bool;

/// What checking `password` against the stored PHC string `stored` gives with
/// argon2: `None` where `stored` does not parse as a PHC string, else whether
/// the password verifies.
pub uninterp spec fn argon2_verdict(password: Seq<u8>, stored: Seq<char>) -> Option<bool>;

/// The head of every PHC string that `Argon2::default()` writes: algorithm
/// Argon2id, version 19, memory 19456 KiB, 2 passes, 1 lane.
pub open spec fn argon2id_head() -> Seq<char> {
    "$argon2id$v=19$m=19456,t=2,p=1$"@
}

/// Length of the shortest PHC string `Argon2::default()` writes: the head, a
/// salt field of at least 11 characters (8 bytes), `$`, and the 43-character
/// field of the 32-byte hash.
pub open spec fn min_phc_len() -> nat {
    86
}

/// `s` begins with the Argon2id version 19 head of the default parameters and
/// is at least `min_phc_len()` characters long.
pub open spec fn is_argon2id_phc(s: Seq<char>) -> bool {
    &&& s.len() >= min_phc_len()
    &&& s.subrange(0, argon2id_head().len() as int) == argon2id_head()
}

/// `h` is what argon2 makes of `password` with the salt `salt` and with no
/// other salt of 8 to 48 bytes.
pub open spec fn phc_of_salt_only(password: Seq<u8>, salt: Seq<u8>, h: Seq<char>) -> bool {
    &&& argon2_phc(password, salt) == Ok::<Seq<char>, Seq<char>>(h)
    &&& forall|other: Seq<u8>|
        8 <= other.len() <= 48 && #[trigger] argon2_phc(password, other) == Ok::<
            Seq<char>,
            Seq<char>,
        >(h) ==> other == salt
}

pub open spec fn text_result_view(r: Result<String, String>) -> Result<Seq<char>, Seq<char>> {
    match r {
        Ok(s) => Ok(s@),
        Err(e) => Err(e@),
    }
}

/// Calls `RngCore::fill_bytes` of the operating system's random source on the
/// buffer. Only its length is stated: the bytes are random.
#[verifier::external_body]
fn fill_random(buf: &mut Vec<u8>)
    ensures
        final(buf)@.len() == old(buf)@.len(),
{
    OsRng.fill_bytes(buf.as_mut_slice())
}

/// Calls `SaltString::encode_b64` on the salt bytes, then
/// `PasswordHasher::hash_password` of `Argon2::default()`, and renders the hash
/// as a PHC string (an error as its text). The outcome is named by `argon2_phc`.
/// The salt must take 8 to 48 bytes: the encoding holds at most 64 characters,
/// the conversion of a shorter encoding panics, and argon2 refuses a salt under
/// 8 bytes. Then hashing fails only for a password over `MAX_PWD_LEN`
/// (0xFFFFFFFF bytes). The string written is the default Argon2id head, the
/// salt's B64 field, `$` and the 43-character hash field, so it is at least 86
/// characters long and no other salt gives it; it parses again and verifies
/// for the password, as argon2's usage example asserts.
#[verifier::external_body]
fn argon2_hash(password: &[u8], salt: &[u8]) -> (r: Result<String, String>)
    requires
        8 <= salt@.len() <= 48,
    ensures
        text_result_view(r) == argon2_phc(password@, salt@),
        password@.len() <= 0xFFFF_FFFF ==> r is Ok,
        r matches Ok(h) ==> {
            &&& argon2_verdict(password@, h@) == Some(true)
            &&& phc_parses(h@)
            &&& is_argon2id_phc(h@)
            &&& phc_of_salt_only(password@, salt@, h@)
        },
{
    match SaltString::encode_b64(salt) {
        Ok(s) => match Argon2::default().hash_password(password, &s) {
            Ok(h) => Ok(h.to_string()),
            Err(e) => Err(e.to_string()),
        },
        Err(e) => Err(e.to_string()),
    }
}

/// Calls `PasswordHash::new` on the stored string and, where it parses,
/// `PasswordVerifier::verify_password` of `Argon2::default()`, reading any error
/// of the latter as a mismatch. The outcome is named by `argon2_verdict`, the
/// parse by `phc_parses`.
#[verifier::external_body]
fn argon2_check(password: &[u8], stored: &str) -> (r: Option<bool>)
    ensures
        r == argon2_verdict(password@, stored@),
        r is Some <==> phc_parses(stored@),
{
    match PasswordHash::new(stored) {
        Ok(h) => Some(Argon2::default().verify_password(password, &h).is_ok()),
        Err(_) => None,
    }
}

/// The response sent when hashing fails, with the hasher's error text.
pub open spec fn hashing_failed(details: Seq<char>) -> ResponseView {
    server_error("error hashing password"@, details)
}

/// What the outcome of hashing becomes: the PHC string, or the error response.
pub fn hashing_outcome(outcome: Result<String, String>) -> (r: Result<String, ApiResponse>)
    ensures
        match outcome {
            Ok(h) => r matches Ok(s) && s@ == h@,
            Err(d) => r matches Err(e) && e@ == hashing_failed(d@),
        },
{
    match outcome {
        Ok(h) => Ok(h),
        Err(d) => Err(server_error_response("error hashing password", d)),
    }
}

/// A PHC string that `Argon2::default()` makes of `password` with some salt of
/// `SALT_LENGTH` bytes, and with no other salt.
pub open spec fn salted_hash_of(password: Seq<u8>, h: Seq<char>) -> bool {
    exists|salt: Seq<u8>| salt.len() == SALT_LENGTH && #[trigger] phc_of_salt_only(password, salt, h)
}

/// What the service stores for `password`: a PHC string that argon2 makes of
/// it with a salt of `SALT_LENGTH` bytes, that parses, verifies for it, and has
/// the default Argon2id form.
pub open spec fn stored_phc(password: Seq<u8>, h: Seq<char>) -> bool {
    &&& salted_hash_of(password, h)
    &&& argon2_verdict(password, h) == Some(true)
    &&& phc_parses(h)
    &&& is_argon2id_phc(h)
}

/// Hashes a password with argon2 (default parameters, fresh random salt of
/// `SALT_LENGTH` bytes) into a PHC string. Hashing succeeds for every password
/// argon2 takes (at most 0xFFFFFFFF bytes); the string is `$argon2id$v=19$...`,
/// is what argon2 makes of the password and the drawn salt, and verifies for
/// `password`; no other salt gives the same string. On failure the error
/// response carries the hasher's error text.
pub fn hash_password(password: &[u8]) -> (r: Result<String, ApiResponse>)
    ensures
        password@.len() <= 0xFFFF_FFFF ==> r is Ok,
        r matches Ok(h) ==> stored_phc(password@, h@),
        r matches Err(e) ==> exists|d: Seq<char>| e@ == hashing_failed(d),
{
    let mut salt: Vec<u8> = vec![0u8; SALT_LENGTH];
    fill_random(&mut salt);
    let outcome = argon2_hash(password, salt.as_slice());
    assert(outcome matches Ok(h) ==> phc_of_salt_only(password@, salt@, h@));
    hashing_outcome(outcome)
}

/// Whether `payload_password` verifies against the stored PHC string. The
/// stored string must parse: the service has no answer for one that does not.
pub fn verify_password(payload_password: &[u8], stored_hash_password: String) -> (r: Result<
    bool,
    ApiResponse,
>)
    requires
        phc_parses(stored_hash_password@),
    ensures
        argon2_verdict(payload_password@, stored_hash_password@) is Some,
        r matches Ok(b) && b == argon2_verdict(payload_password@, stored_hash_password@)->0,
{
    match argon2_check(payload_password, stored_hash_password.as_str()) {
        Some(b) => Ok(b),
        None => Ok(false),
    }
}

/// `verify_password` where the stored string parses, `None` where it does not.
pub fn try_verify_password(payload_password: &[u8], stored_hash_password: String) -> (r: Option<
    Result<bool, ApiResponse>,
>)
    ensures
        r is Some <==> phc_parses(stored_hash_password@),
        match argon2_verdict(payload_password@, stored_hash_password@) {
            Some(b) => r matches Some(Ok(x)) && x == b,
            None => r is None,
        },
{
    match argon2_check(payload_password, stored_hash_password.as_str()) {
        Some(_) => Some(verify_password(payload_password, stored_hash_password)),
        None => None,
    }
}

} // verus!
