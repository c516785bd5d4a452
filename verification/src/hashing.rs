//! Credential hashing: a memory-hard password hash with fixed,
//! policy-mandated parameters, and verification of PHC-formatted hash strings.

use vstd::prelude::*;

verus! {

/// Memory cost of 15 MiB, the OWASP-recommended Argon2id baseline.
pub const ARGON2_M_COST: u32 = 15 * 1024;

/// Two iterations, the OWASP-recommended Argon2id baseline.
pub const ARGON2_T_COST: u32 = 2;

/// Degree of parallelism of 1, the OWASP-recommended Argon2id baseline.
pub const ARGON2_P_COST: u32 = 1;

/// Fake hash used to keep authentication constant-time when the identifier is
/// unknown or its stored hash is unreadable.
///
/// The PHC hash is derived from an empty password under the fixed parameters;
/// it is never accepted as a valid credential.
pub const FAKE_PHC_HASH: &'static str =
    "$argon2id$v=19$m=15360,t=2,p=1$saltsaltsaltsalt$1hx6lvjIBIrxykf2XmEdsNUxMAsJ6FBKtP5g4R0UygY";

/// Whether a string parses as a PHC-formatted password hash.
pub uninterp spec fn phc_well_formed(hash: Seq<char>) -> bool;

/// Whether password-hash verification of `password` against the PHC string
/// `hash` succeeds. The hash string carries its own algorithm, parameters and
/// salt, so the outcome is a function of the two strings alone; a string that
/// is not a well-formed PHC hash never verifies.
pub uninterp spec fn phc_verifies(hash: Seq<char>, password: Seq<char>) -> bool;

/// Relies on `argon2::PasswordHash::new`: whether `hash` parses as a
/// PHC-formatted hash string, a function of the string alone.
#[verifier::external_body]
pub(crate) fn phc_parses(hash: &str) -> (r: bool)
    ensures
        r == phc_well_formed(hash@),
{
    argon2::PasswordHash::new(hash).is_ok()
}

/// Relies on `argon2::Argon2::verify_password` (with `PasswordHash::new`):
/// verification recomputes the hash with the algorithm, parameters and salt
/// encoded in `hash` itself, so the outcome depends on `hash` and `password`
/// alone; a `hash` that does not parse never verifies.
#[verifier::external_body]
pub(crate) fn verify_phc(hash: &str, password: &str) -> (r: bool)
    ensures
        r == phc_verifies(hash@, password@),
{
    match argon2::PasswordHash::new(hash) {
        Ok(parsed) => {
            let ctx = argon2::Argon2::default();
            argon2::PasswordVerifier::verify_password(&ctx, password.as_bytes(), &parsed).is_ok()
        },
        Err(_) => false,
    }
}

/// Relies on `argon2::Argon2::hash_password` (trait `PasswordHasher`): hashes
/// `password` with the given costs and a fresh random salt and serializes the
/// result. A hash so produced is a well-formed PHC string and verifies against
/// the password it was computed from.
#[verifier::external_body]
fn hash_password_with(password: &str, m_cost: u32, t_cost: u32, p_cost: u32) -> (r: Option<
    String,
>)
    ensures
        r matches Some(h) ==> phc_well_formed(h@) && phc_verifies(h@, password@),
{
    let params = match argon2::Params::new(m_cost, t_cost, p_cost, None) {
        Ok(p) => p,
        Err(_) => return None,
    };
    let ctx = argon2::Argon2::new(argon2::Algorithm::Argon2id, argon2::Version::V0x13, params);
    match argon2::PasswordHasher::hash_password(&ctx, password.as_bytes()) {
        Ok(h) => Some(h.to_string()),
        Err(_) => None,
    }
}

/// Hash a password under the fixed, policy-mandated parameters, with a fresh
/// random salt. The result, when produced, is a well-formed PHC string that
/// verifies against `password`.
pub fn hash_password(password: &str) -> (r: Option<String>)
    ensures
        r matches Some(h) ==> phc_well_formed(h@) && phc_verifies(h@, password@),
{
    hash_password_with(password, ARGON2_M_COST, ARGON2_T_COST, ARGON2_P_COST)
}

} // verus!
