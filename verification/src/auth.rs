use vstd::prelude::*;
use crate::config::PasswordHashingConfig;
use crate::errors::{HttpError, STATUS_BAD_REQUEST};
use crate::text::{password_is_strong, spec_has_prefix, spec_strong_password};

verus! {

/// The cost parameters under which the argon2 implementation accepts a
/// hashing request: its documented validity ranges, with the memory
/// ceiling of the smaller (32-bit) build taken on every platform.
/// Hashing with parameters in these ranges cannot fail.
pub open spec fn spec_hashing_config_ok(c: PasswordHashingConfig) -> bool {
    &&& 1 <= c.lanes <= 0xffffff
    &&& 8 <= c.mem_cost <= 0x200000
    &&& c.mem_cost >= 8 * c.lanes
    &&& 1 <= c.time_cost
    &&& 4 <= c.hash_length
}

/// Whether argon2 verification accepts `password` against the encoded
/// hash `hash`. The outcome is a function of the two strings alone: the
/// encoded hash embeds the algorithm, its parameters and the salt.
pub uninterp spec fn argon2_verifies(hash: Seq<char>, password: Seq<char>) -> bool;

#[verifier::external_type_specification]
#[verifier::external_body]
pub struct ExArgon2Error(argon2::Error);

/// Relies on rand::rng().fill_bytes for a fresh random salt; nothing is
/// assumed of the bytes beyond their number.
#[verifier::external_body]
fn random_salt() -> (r: Vec<u8>)
    ensures
        r@.len() == 16,
{
    let mut salt = [0u8; 16];
    rand::RngCore::fill_bytes(&mut rand::rng(), &mut salt);
    salt.to_vec()
}

/// Relies on argon2::hash_encoded: the encoded result is a
/// self-describing string of the shape `$argon2i$v=19$m=..,t=..,p=..`
/// followed by salt and digest, and argon2::verify_encoded re-derives
/// from the embedded parameters and accepts the same password against
/// it. The call errs exactly when an input is outside the documented
/// validity ranges, so with the cost parameters in range, a salt of 8
/// to 2^32-1 bytes and a password below 2^32 bytes (any string of at
/// most 2^28 characters) it succeeds.
#[verifier::external_body]
fn argon2_hash(password: &str, salt: &[u8], config: &PasswordHashingConfig) -> (r: Result<
    String,
    argon2::Error,
>)
    ensures
        spec_hashing_config_ok(*config) && 8 <= salt@.len() <= 0xffffffff && password@.len()
            <= 0x10000000 ==> r is Ok,
        r matches Ok(h) ==> argon2_verifies(h@, password@) && h@.len() > 0 && spec_has_prefix(
            h@,
            "$argon2i$v=19$"@,
        ),
{
    let pwd_config = argon2::Config {
        variant: argon2::Variant::Argon2i,
        version: argon2::Version::Version13,
        mem_cost: config.mem_cost,
        time_cost: config.time_cost,
        lanes: config.lanes,
        secret: &[],
        ad: &[],
        hash_length: config.hash_length,
    };
    argon2::hash_encoded(password.as_bytes(), salt, &pwd_config)
}

/// Relies on argon2::verify_encoded, whose result depends only on the
/// encoded hash and the candidate password. A stored hash that does not
/// parse verifies as false instead of surfacing an error, so a malformed
/// hash never becomes an oracle.
#[verifier::external_body]
pub fn verify_password(password: &str, hash: &str) -> (r: bool)
    ensures
        r == argon2_verifies(hash@, password@),
{
    match argon2::verify_encoded(hash, password.as_bytes()) {
        Ok(ok) => ok,
        Err(_) => false,
    }
}

/// Derives a salted, self-describing credential hash for `password`.
/// Whenever hashing succeeds, verifying the same password against the
/// returned hash succeeds as well; with cost parameters in the
/// algorithm's validity ranges and a password of at most 2^28
/// characters, hashing is owed to succeed, so an error can only come
/// from parameters outside those ranges.
pub fn hash_password(password: &str, config: &PasswordHashingConfig) -> (r: Result<
    String,
    argon2::Error,
>)
    ensures
        spec_hashing_config_ok(*config) && password@.len() <= 0x10000000 ==> r is Ok,
        r matches Ok(h) ==> argon2_verifies(h@, password@) && h@.len() > 0 && spec_has_prefix(
            h@,
            "$argon2i$v=19$"@,
        ),
{
    let salt = random_salt();
    argon2_hash(password, salt.as_slice(), config)
}

/// The password-strength policy: accepts exactly the passwords that hold
/// a lowercase letter, an uppercase letter, a digit and a special
/// character, and reports every other password as a bad request.
pub fn validate_password(password: &str) -> (r: Result<bool, HttpError>)
    ensures
        r matches Ok(b) ==> b && spec_strong_password(password@),
        r matches Err(e) ==> !spec_strong_password(password@) && e.is(
            STATUS_BAD_REQUEST,
            "client"@,
            "La contraseña debe tener al menos: 1 minúscula, 1 mayúscula, 1 número y 1 caracter especial"@,
        ),
        r is Ok <==> spec_strong_password(password@),
{
    if password_is_strong(password) {
        Ok(true)
    } else {
        Err(
            HttpError::bad_request(
                "La contraseña debe tener al menos: 1 minúscula, 1 mayúscula, 1 número y 1 caracter especial",
            ),
        )
    }
}

} // verus!
