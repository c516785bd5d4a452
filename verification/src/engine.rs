//! The access-control state machine: a typestate handle that sequences
//! authentication before authorization and authorization before retrieval,
//! with constant-time-shaped credential verification and a safe registration
//! policy.

use vstd::prelude::*;

use crate::capabilities::CapabilitySet;
use crate::hashing::{hash_password, phc_parses, phc_verifies, phc_well_formed, verify_phc,
    FAKE_PHC_HASH};
use crate::principal::User;
use crate::text::{identifier_ok, lower_of, password_length_ok, to_lowercase, valid_identifier,
    valid_password_length};

verus! {

/// Access-control errors for authentication, authorization and registration.
#[derive(Clone, Copy, Debug, PartialEq, Eq, Structural)]
pub enum Error {
    /// Authentication failed: the identity could not be verified.
    Authentication,
    /// Authorization failed: the identity is established but lacks a required
    /// capability.
    Authorization,
    /// Registration was rejected because the identifier violates the policy.
    UsernamePolicy,
    /// Registration was rejected because the password violates the policy.
    PasswordPolicy,
}

impl Error {
    /// The caller-facing description of this error.
    pub open spec fn spec_message(self) -> Seq<char> {
        match self {
            Error::Authentication => "Invalid credentials"@,
            Error::Authorization => "Permission denied"@,
            Error::UsernamePolicy => "Username does not match the policy"@,
            Error::PasswordPolicy => "Password does not match the policy"@,
        }
    }

    /// The caller-facing description of this error.
    pub fn message(&self) -> (r: &'static str)
        ensures
            r@ == self.spec_message(),
    {
        match self {
            Error::Authentication => "Invalid credentials",
            Error::Authorization => "Permission denied",
            Error::UsernamePolicy => "Username does not match the policy",
            Error::PasswordPolicy => "Password does not match the policy",
        }
    }
}

/// The failure a credential store reports; its cause (a duplicate identifier,
/// a lost connection) is the store's own affair and carries no payload here.
#[derive(Clone, Copy, Debug, PartialEq, Eq, Structural)]
pub struct BackendError;

/// The operations of the credential/session store the engine is bound to.
///
/// The store is an external collaborator: nothing is assumed of its answers
/// beyond their types, and every engine contract holds whatever it returns.
/// Implementations live outside the engine (an SQL-backed store, an in-memory
/// store for tests).
pub trait Backend<U: User>: Sized + Clone {
    /// Look up the identity record registered under `username`.
    fn get_user(&self, username: &str) -> Option<U>;

    /// Look up the identity record bound to a live session `session_id`;
    /// expiry is this store's responsibility.
    fn get_user_from_session(&self, session_id: &str) -> Option<U>;

    /// Create an account under `username` with the given password hash.
    fn register_user(&self, username: &str, password_hash: &str) -> Result<(), BackendError>;

    /// Bind a session identifier to a registered identity record.
    fn store_session(&self, user: &U, session_id: &str) -> Result<(), BackendError>;

    /// Remove the session bound to `session_id`, best-effort.
    fn remove_session(&self, session_id: &str);
}

/// A phase of the [`AccessControl`] typestate. The two spec functions say
/// what the phase guarantees about the handle that carries it.
pub trait AccessControlState {
    /// Whether a handle in this phase always carries a principal.
    spec fn principal_attached(&self) -> bool;

    /// Whether a handle in this phase has passed the capability check.
    spec fn grant_checked(&self) -> bool;
}

/// The initial phase: no principal is attached.
pub struct Start;

/// The phase after a successful verification: a principal is attached.
pub struct Authenticated;

/// The terminal phase: a principal is attached and its capability set was
/// proven a superset of the required set at the transition.
pub struct Authorized;

impl AccessControlState for Start {
    open spec fn principal_attached(&self) -> bool {
        false
    }

    open spec fn grant_checked(&self) -> bool {
        false
    }
}

impl AccessControlState for Authenticated {
    open spec fn principal_attached(&self) -> bool {
        true
    }

    open spec fn grant_checked(&self) -> bool {
        false
    }
}

impl AccessControlState for Authorized {
    open spec fn principal_attached(&self) -> bool {
        true
    }

    open spec fn grant_checked(&self) -> bool {
        true
    }
}

/// Whether a credential check succeeds for a given lookup result: the record
/// must exist, its stored hash must be a well-formed PHC string, and the
/// submitted password must verify against that stored hash. On every other
/// outcome the decoy path runs and authentication fails.
pub open spec fn credentials_accepted<U: User>(lookup: Option<U>, password: Seq<char>) -> bool {
    lookup matches Some(u) && phc_well_formed(u.spec_password_hash()) && phc_verifies(
        u.spec_password_hash(),
        password,
    )
}

/// Law: a principal whose stored hash was produced from a password — as
/// [`hash_password`](crate::hashing::hash_password) produces it — passes the
/// credential check with that password.
pub proof fn lemma_stored_hash_authenticates<U: User>(u: U, password: Seq<char>)
    requires
        phc_well_formed(u.spec_password_hash()),
        phc_verifies(u.spec_password_hash(), password),
    ensures
        credentials_accepted(Some(u), password),
{
}

/// Law: the empty required capability set is satisfied by every principal,
/// so an authorization that requires nothing always succeeds.
pub proof fn lemma_empty_requirement_always_satisfied(capabilities: Set<Seq<char>>)
    ensures
        Set::<Seq<char>>::empty().subset_of(capabilities),
{
}

/// A phase-tagged handle over a credential store.
///
/// Every transition consumes the handle and returns one of the next phase, so
/// authorization cannot be skipped: `authorize` exists only on an
/// `Authenticated` handle and `get_user` only on an `Authorized` one, and
/// only the transitions can mint those handles.
pub struct AccessControl<S, B, U> where S: AccessControlState, B: Backend<U>, U: User {
    state: S,
    backend: B,
    user: Option<U>,
    granted: Ghost<Set<Seq<char>>>,
}

impl<S, B, U> AccessControl<S, B, U> where S: AccessControlState, B: Backend<U>, U: User {
    /// The phase invariants: a principal is present from `Authenticated` on,
    /// and from `Authorized` on its capabilities contain every granted label.
    #[verifier::type_invariant]
    closed spec fn phase_inv(self) -> bool {
        &&& self.state.principal_attached() ==> self.user is Some
        &&& self.state.grant_checked() ==> (self.user matches Some(u) && self.granted@.subset_of(
            u.spec_capabilities(),
        ))
    }

    /// The principal the handle carries, if any.
    pub closed spec fn spec_user(self) -> Option<U> {
        self.user
    }

    /// The capability set that was required, and proven held, at the
    /// `authorize` transition.
    pub closed spec fn spec_granted(self) -> Set<Seq<char>> {
        self.granted@
    }
}

impl<B, U> AccessControl<Start, B, U> where B: Backend<U>, U: User {
    /// Create a handle in the `Start` phase, bound to `backend`.
    pub fn new(backend: B) -> (r: AccessControl<Start, B, U>)
        ensures
            r.spec_user() is None,
    {
        AccessControl { state: Start, backend, user: None, granted: Ghost(Set::empty()) }
    }

    /// Authenticate by identifier and password.
    ///
    /// Exactly one backend lookup and exactly one hash verification happen on
    /// every call: the decision which hash to verify against (the stored one
    /// or the decoy) is a cheap reference swap, so an unknown identifier is
    /// not distinguishable from a wrong password by skipped work.
    pub fn authenticate_creds(self, username: &str, password: &str) -> (r: Result<
        AccessControl<Authenticated, B, U>,
        Error,
    >)
        ensures
            r matches Ok(h) ==> {
                &&& h.spec_user() is Some
                &&& credentials_accepted(h.spec_user(), password@)
            },
            r matches Err(e) ==> e == Error::Authentication,
    {
        let lookup = self.backend.get_user(username);
        self.authenticate_with_lookup(lookup, password)
    }

    /// The verification step of [`Self::authenticate_creds`], a total decision
    /// over the lookup outcome: succeeds if and only if the record exists, its
    /// stored hash is readable, and the password verifies against it. One hash
    /// verification runs on every path, against the stored hash when it
    /// parses and against the process-wide decoy hash otherwise.
    pub fn authenticate_with_lookup(self, lookup: Option<U>, password: &str) -> (r: Result<
        AccessControl<Authenticated, B, U>,
        Error,
    >)
        ensures
            r is Ok <==> credentials_accepted(lookup, password@),
            r matches Ok(h) ==> h.spec_user() == lookup,
            r matches Err(e) ==> e == Error::Authentication,
    {
        let AccessControl { backend, .. } = self;
        // Select the hash to verify against: the stored one when it parses,
        // the decoy otherwise. No early return before the verification.
        let (selected, genuine): (String, bool) = match &lookup {
            Some(u) => {
                let stored = u.password_hash();
                if phc_parses(stored) {
                    (stored.to_owned(), true)
                } else {
                    (FAKE_PHC_HASH.to_owned(), false)
                }
            },
            None => (FAKE_PHC_HASH.to_owned(), false),
        };
        let verified = verify_phc(selected.as_str(), password);
        if verified && genuine {
            Ok(
                AccessControl {
                    state: Authenticated,
                    backend,
                    user: lookup,
                    granted: Ghost(Set::empty()),
                },
            )
        } else {
            Err(Error::Authentication)
        }
    }

    /// Authenticate by an opaque session token: succeeds exactly when the
    /// backend has a live principal bound to the token.
    pub fn authenticate_session(self, session_id: &str) -> (r: Result<
        AccessControl<Authenticated, B, U>,
        Error,
    >)
        ensures
            r matches Ok(h) ==> h.spec_user() is Some,
            r matches Err(e) ==> e == Error::Authentication,
    {
        let lookup = self.backend.get_user_from_session(session_id);
        self.authenticate_with_session_lookup(lookup)
    }

    /// The decision step of [`Self::authenticate_session`], total over the
    /// lookup outcome: succeeds if and only if a principal was bound to the
    /// token.
    pub fn authenticate_with_session_lookup(self, lookup: Option<U>) -> (r: Result<
        AccessControl<Authenticated, B, U>,
        Error,
    >)
        ensures
            r is Ok <==> lookup is Some,
            r matches Ok(h) ==> h.spec_user() == lookup,
            r matches Err(e) ==> e == Error::Authentication,
    {
        let AccessControl { backend, .. } = self;
        match lookup {
            Some(user) => Ok(
                AccessControl {
                    state: Authenticated,
                    backend,
                    user: Some(user),
                    granted: Ghost(Set::empty()),
                },
            ),
            None => Err(Error::Authentication),
        }
    }

    /// Register a new account.
    ///
    /// The identifier is lowercase-normalized, then both policies are checked,
    /// first failure first. On a policy pass the hashed credentials are handed
    /// to the backend, and the backend's outcome is deliberately masked: a
    /// duplicate identifier and a fresh registration return the same `Ok(())`,
    /// so the response does not reveal which identifiers exist.
    pub fn register(self, username: &str, password: &str) -> (r: Result<(), Error>)
        ensures
            r == Err::<(), Error>(Error::UsernamePolicy) <==> !valid_identifier(
                lower_of(username@),
            ),
            r == Err::<(), Error>(Error::PasswordPolicy) <==> (valid_identifier(
                lower_of(username@),
            ) && !valid_password_length(password@)),
            r is Ok <==> (valid_identifier(lower_of(username@)) && valid_password_length(
                password@,
            )),
    {
        let username = to_lowercase(username);
        if !identifier_ok(username.as_str()) {
            return Err(Error::UsernamePolicy);
        }
        if !password_length_ok(password) {
            return Err(Error::PasswordPolicy);
        }
        match hash_password(password) {
            Some(hash) => {
                let _ = self.backend.register_user(username.as_str(), hash.as_str());
            },
            None => (),
        }
        Ok(())
    }
}

impl<B, U> AccessControl<Authenticated, B, U> where B: Backend<U>, U: User {
    /// Authorize the authenticated principal against a required capability
    /// set: succeeds if and only if the principal's capabilities are a
    /// superset of `required_capabilities` (so the empty set always passes).
    pub fn authorize(self, required_capabilities: &CapabilitySet) -> (r: Result<
        AccessControl<Authorized, B, U>,
        Error,
    >)
        ensures
            self.spec_user() is Some,
            r is Ok <==> required_capabilities@.subset_of(
                self.spec_user()->0.spec_capabilities(),
            ),
            r matches Ok(h) ==> {
                &&& h.spec_user() == self.spec_user()
                &&& h.spec_granted() == required_capabilities@
            },
            r matches Err(e) ==> e == Error::Authorization,
    {
        proof {
            use_type_invariant(&self);
        }
        let AccessControl { backend, user, .. } = self;
        let granted = match &user {
            Some(u) => u.capabilities().is_superset(required_capabilities),
            None => false,
        };
        if granted {
            Ok(
                AccessControl {
                    state: Authorized,
                    backend,
                    user,
                    granted: Ghost(required_capabilities@),
                },
            )
        } else {
            Err(Error::Authorization)
        }
    }
}

impl<B, U> AccessControl<Authorized, B, U> where B: Backend<U>, U: User {
    /// Retrieve the authenticated and authorized principal. This cannot fail:
    /// the phase invariant guarantees a principal is present, and its
    /// capability set contains every label granted at the transition.
    pub fn get_user(self) -> (r: U)
        ensures
            self.spec_user() == Some(r),
            self.spec_granted().subset_of(r.spec_capabilities()),
    {
        proof {
            use_type_invariant(&self);
        }
        let AccessControl { user, .. } = self;
        user.unwrap()
    }
}

} // verus!
