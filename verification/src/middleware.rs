//! The decision core of the session middleware: the flows it drives the
//! engine through (login, session lookup, registration) and the generation of
//! session identifiers. The transport around them (cookies, requests,
//! responses) stays outside the library.

use vstd::prelude::*;

use crate::capabilities::CapabilitySet;
use crate::engine::{credentials_accepted, AccessControl, Backend, Error};
use crate::principal::User;

verus! {

/// A pair of submitted credentials, as a login or registration form carries
/// them.
pub struct Credentials {
    pub username: String,
    pub password: String,
}

/// The middleware configuration guarding one route: a backend handle and the
/// capability set the route requires.
pub struct RustAuthMiddleware<B, U> where B: Backend<U>, U: User {
    pub backend: B,
    pub required_capabilities: CapabilitySet,
    /// Marks the identity-record type the backend serves.
    pub marker: core::marker::PhantomData<U>,
}

impl<B, U> RustAuthMiddleware<B, U> where B: Backend<U>, U: User {
    /// Bundle a backend with the capability set a route requires.
    pub fn new(backend: B, required_capabilities: CapabilitySet) -> (r: Self)
        ensures
            r.backend == backend,
            r.required_capabilities@ == required_capabilities@,
    {
        RustAuthMiddleware { backend, required_capabilities, marker: core::marker::PhantomData }
    }
}

/// The base64 encoding (standard alphabet, padded) of a byte string.
pub uninterp spec fn base64_of(bytes: Seq<u8>) -> Seq<char>;

/// Relies on `base64::engine::general_purpose::STANDARD.encode`: the standard
/// padded base64 encoding of `bytes`, four output characters for every three
/// input bytes begun.
#[verifier::external_body]
pub(crate) fn base64_encode(bytes: &Vec<u8>) -> (r: String)
    ensures
        r@ == base64_of(bytes@),
        r@.len() == ((bytes@.len() + 2) / 3) * 4,
{
    base64::Engine::encode(&base64::engine::general_purpose::STANDARD, bytes.as_slice())
}

/// Relies on `rand::thread_rng` (a CSPRNG) and `RngCore::fill_bytes`: 32
/// fresh random bytes. Nothing is promised of the values, only the length.
#[verifier::external_body]
pub(crate) fn random_session_key() -> (r: Vec<u8>)
    ensures
        r@.len() == 32,
{
    let mut key = vec![0u8; 32];
    rand::RngCore::fill_bytes(&mut rand::thread_rng(), &mut key);
    key
}

/// Generate a fresh session identifier: the base64 encoding of 256 random
/// bits, double the minimum session-identifier entropy OWASP recommends.
pub fn generate_session_id() -> (r: String)
    ensures
        r@.len() == 44,
        exists|k: Seq<u8>| k.len() == 32 && r@ == base64_of(k),
{
    let key = random_session_key();
    let r = base64_encode(&key);
    proof {
        assert(key@.len() == 32 && r@ == base64_of(key@));
    }
    r
}

/// How the login flow can fail: the engine refused the credentials, or the
/// backend could not store the freshly created session.
#[derive(Clone, Copy, Debug, PartialEq, Eq, Structural)]
pub enum LoginError {
    /// The engine's own failure.
    Access(Error),
    /// The session could not be bound in the backend.
    SessionStore,
}

/// The login flow: lowercase-normalize the identifier, authenticate by
/// credentials, pass the (always satisfied) empty authorization, generate a
/// fresh session identifier and bind it in the backend. Returns the principal
/// and the session identifier for the caller to hand out as a cookie.
pub fn login<B, U>(backend: &B, username: &str, password: &str) -> (r: Result<
    (U, String),
    LoginError,
>) where B: Backend<U>, U: User
    ensures
        r matches Ok((u, sid)) ==> {
            &&& credentials_accepted(Some(u), password@)
            &&& sid@.len() == 44
        },
        r matches Err(LoginError::Access(e)) ==> e == Error::Authentication,
{
    let username = crate::text::to_lowercase(username);
    let handle = AccessControl::<crate::engine::Start, B, U>::new(backend.clone());
    let authenticated = match handle.authenticate_creds(username.as_str(), password) {
        Ok(h) => h,
        Err(e) => {
            return Err(LoginError::Access(e));
        },
    };
    // No capability is required to log in; the empty set always authorizes.
    let none_required = CapabilitySet::new();
    let authorized = match authenticated.authorize(&none_required) {
        Ok(h) => h,
        Err(_) => {
            proof {
                crate::engine::lemma_empty_requirement_always_satisfied(
                    authenticated.spec_user()->0.spec_capabilities(),
                );
                assert(false);
            }
            return Err(LoginError::SessionStore);
        },
    };
    let user = authorized.get_user();
    let session_id = generate_session_id();
    match backend.store_session(&user, session_id.as_str()) {
        Ok(_) => Ok((user, session_id)),
        Err(_) => Err(LoginError::SessionStore),
    }
}

/// The session lookup a guarded route runs: authenticate by session token,
/// then authorize against the route's required capabilities. Any principal
/// this returns holds every required capability.
pub fn session_user<B, U>(backend: &B, session_id: &str, required_capabilities: &CapabilitySet) -> (r:
    Result<U, Error>) where B: Backend<U>, U: User
    ensures
        r matches Ok(u) ==> required_capabilities@.subset_of(u.spec_capabilities()),
        r matches Err(e) ==> (e == Error::Authentication || e == Error::Authorization),
{
    let handle = AccessControl::<crate::engine::Start, B, U>::new(backend.clone());
    let authenticated = match handle.authenticate_session(session_id) {
        Ok(h) => h,
        Err(e) => {
            return Err(e);
        },
    };
    let authorized = match authenticated.authorize(required_capabilities) {
        Ok(h) => h,
        Err(e) => {
            return Err(e);
        },
    };
    Ok(authorized.get_user())
}

} // verus!
