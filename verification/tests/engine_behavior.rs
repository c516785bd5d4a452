use std::cell::RefCell;
use std::collections::HashMap;
use std::rc::Rc;

use access_control::capabilities::{Capabilities, CapabilitySet};
use access_control::engine::{AccessControl, Backend, BackendError, Error, Start};
use access_control::hashing::hash_password;
use access_control::middleware::{generate_session_id, login, session_user, LoginError,
    RustAuthMiddleware};
use access_control::principal::{Principal, User};
use access_control::service_errors::{user_lookup_error, user_registration_error, ServiceError};

#[derive(Default)]
struct MemoryState {
    /// username -> (stored hash, capability labels)
    users: HashMap<String, (String, Vec<String>)>,
    /// session id -> username
    sessions: HashMap<String, String>,
    lookups: usize,
    register_calls: Vec<(String, String)>,
    fail_registration: bool,
    fail_sessions: bool,
}

#[derive(Clone, Default)]
struct MemoryBackend {
    state: Rc<RefCell<MemoryState>>,
}

impl MemoryBackend {
    fn with_user(username: &str, hash: &str, caps: &[&str]) -> MemoryBackend {
        let backend = MemoryBackend::default();
        backend.state.borrow_mut().users.insert(
            username.to_string(),
            (
                hash.to_string(),
                caps.iter().map(|c| c.to_string()).collect(),
            ),
        );
        backend
    }

    fn lookups(&self) -> usize {
        self.state.borrow().lookups
    }
}

fn principal_for(username: &str, hash: &str, caps: &[String]) -> Principal {
    let mut set = CapabilitySet::new();
    for c in caps {
        set.insert(c.clone());
    }
    Principal::new(username.to_string(), hash.to_string(), set)
        .expect("identifier meets the policy")
}

impl Backend<Principal> for MemoryBackend {
    fn get_user(&self, username: &str) -> Option<Principal> {
        let mut st = self.state.borrow_mut();
        st.lookups += 1;
        let (hash, caps) = st.users.get(username)?.clone();
        Some(principal_for(username, &hash, &caps))
    }

    fn get_user_from_session(&self, session_id: &str) -> Option<Principal> {
        let st = self.state.borrow();
        let name = st.sessions.get(session_id)?.clone();
        let (hash, caps) = st.users.get(&name)?.clone();
        Some(principal_for(&name, &hash, &caps))
    }

    fn register_user(&self, username: &str, password_hash: &str) -> Result<(), BackendError> {
        let mut st = self.state.borrow_mut();
        st.register_calls
            .push((username.to_string(), password_hash.to_string()));
        if st.fail_registration || st.users.contains_key(username) {
            return Err(BackendError);
        }
        st.users
            .insert(username.to_string(), (password_hash.to_string(), Vec::new()));
        Ok(())
    }

    fn store_session(&self, user: &Principal, session_id: &str) -> Result<(), BackendError> {
        let mut st = self.state.borrow_mut();
        if st.fail_sessions {
            return Err(BackendError);
        }
        st.sessions
            .insert(session_id.to_string(), user.username().to_string());
        Ok(())
    }

    fn remove_session(&self, session_id: &str) {
        self.state.borrow_mut().sessions.remove(session_id);
    }
}

fn handle(backend: &MemoryBackend) -> AccessControl<Start, MemoryBackend, Principal> {
    AccessControl::<Start, MemoryBackend, Principal>::new(backend.clone())
}

fn set_of(labels: &[&str]) -> CapabilitySet {
    let mut set = CapabilitySet::new();
    for l in labels {
        set.insert(l.to_string());
    }
    set
}

#[test]
fn valid_login_succeeds() {
    let hash = hash_password("password").expect("hashing succeeds");
    let backend = MemoryBackend::with_user("admin", &hash, &[]);

    let authenticated = handle(&backend)
        .authenticate_creds("admin", "password")
        .expect("correct credentials authenticate");
    let authorized = authenticated
        .authorize(&CapabilitySet::new())
        .expect("the empty requirement always authorizes");
    assert_eq!(authorized.get_user().username(), "admin");
}

#[test]
fn wrong_password_fails_with_authentication_error() {
    let hash = hash_password("password").expect("hashing succeeds");
    let backend = MemoryBackend::with_user("admin", &hash, &[]);

    let result = handle(&backend).authenticate_creds("admin", "wrongpassword");
    assert!(matches!(result, Err(Error::Authentication)));
}

#[test]
fn unknown_user_and_wrong_password_are_indistinguishable() {
    let hash = hash_password("password").expect("hashing succeeds");
    let backend = MemoryBackend::with_user("admin", &hash, &[]);

    // Known identifier, wrong password: one lookup, Authentication error.
    let wrong = handle(&backend).authenticate_creds("admin", "wrongpassword");
    assert_eq!(backend.lookups(), 1);
    // Unknown identifier: also one lookup, and the very same error.
    let unknown = handle(&backend).authenticate_creds("nobody", "wrongpassword");
    assert_eq!(backend.lookups(), 2);

    match (wrong, unknown) {
        (Err(a), Err(b)) => assert_eq!(a, b),
        _ => panic!("both authentication attempts must fail"),
    }
}

#[test]
fn empty_password_never_authenticates_unknown_user() {
    // The decoy hash is derived from an empty password; it still must never
    // act as a valid credential.
    let backend = MemoryBackend::default();
    let result = handle(&backend).authenticate_creds("ghost", "");
    assert!(matches!(result, Err(Error::Authentication)));
}

#[test]
fn unreadable_stored_hash_fails_authentication() {
    let backend = MemoryBackend::with_user("admin", "not-a-phc-hash", &[]);
    let result = handle(&backend).authenticate_creds("admin", "not-a-phc-hash");
    assert!(matches!(result, Err(Error::Authentication)));
}

#[test]
fn authorize_succeeds_iff_capabilities_are_superset() {
    let hash = hash_password("password").expect("hashing succeeds");
    let backend = MemoryBackend::with_user("admin", &hash, &["UserRead"]);

    let principal = backend.get_user("admin").unwrap();
    let granted = handle(&backend)
        .authenticate_with_session_lookup(Some(principal))
        .unwrap()
        .authorize(&set_of(&["UserRead"]));
    assert!(granted.is_ok());

    let principal = backend.get_user("admin").unwrap();
    let denied = handle(&backend)
        .authenticate_with_session_lookup(Some(principal))
        .unwrap()
        .authorize(&set_of(&["UserRead", "AdminRead"]));
    assert!(matches!(denied, Err(Error::Authorization)));
}

#[test]
fn retrieval_returns_the_authenticated_principal() {
    let hash = hash_password("somelongpassword").expect("hashing succeeds");
    let backend = MemoryBackend::with_user("carol7", &hash, &["UserRead"]);

    let retrieved = handle(&backend)
        .authenticate_creds("carol7", "somelongpassword")
        .unwrap()
        .authorize(&set_of(&["UserRead"]))
        .unwrap()
        .get_user();
    assert_eq!(retrieved.username(), "carol7");
    assert_eq!(retrieved.password_hash(), hash.as_str());
    assert!(retrieved.capabilities().contains(&"UserRead".to_string()));
}

#[test]
fn registration_password_boundaries() {
    let backend = MemoryBackend::default();
    let cases: &[(usize, Option<Error>)] = &[
        (11, Some(Error::PasswordPolicy)),
        (12, None),
        (256, None),
        (257, Some(Error::PasswordPolicy)),
    ];
    for (i, (len, expected)) in cases.iter().enumerate() {
        let username = format!("boundary{}", i);
        let password = "a".repeat(*len);
        let result = handle(&backend).register(&username, &password);
        match expected {
            None => assert_eq!(result, Ok(()), "length {} must be accepted", len),
            Some(e) => assert_eq!(result, Err(*e), "length {} must be rejected", len),
        }
    }
}

#[test]
fn registration_username_policy() {
    let backend = MemoryBackend::default();
    let valid_password = "a".repeat(20);

    let at_sign = handle(&backend).register("user@example", &valid_password);
    assert_eq!(at_sign, Err(Error::UsernamePolicy));

    let empty = handle(&backend).register("", &valid_password);
    assert_eq!(empty, Err(Error::UsernamePolicy));

    let non_alnum_after_lowering = handle(&backend).register("\u{c4}dmin1", &valid_password);
    assert_eq!(non_alnum_after_lowering, Err(Error::UsernamePolicy));

    // The identifier policy is checked first.
    let both_invalid = handle(&backend).register("user name", "short");
    assert_eq!(both_invalid, Err(Error::UsernamePolicy));
}

#[test]
fn password_length_counts_characters_not_bytes() {
    let backend = MemoryBackend::default();
    // Twelve characters, twenty-four bytes: the policy counts characters.
    let password = "\u{e4}".repeat(12);
    let result = handle(&backend).register("umlautuser", &password);
    assert_eq!(result, Ok(()));
}

#[test]
fn identifier_normalization_is_unicode_lowercasing() {
    let backend = MemoryBackend::default();
    // The Kelvin sign lowercases to an ASCII 'k', so this identifier passes
    // the policy after normalization.
    let result = handle(&backend).register("\u{212a}elvin1", &"a".repeat(20));
    assert_eq!(result, Ok(()));
    let calls = backend.state.borrow().register_calls.clone();
    assert_eq!(calls[0].0, "kelvin1");
}

#[test]
fn registration_masks_the_backend_outcome() {
    let backend = MemoryBackend::default();
    let password = "a".repeat(20);

    let fresh = handle(&backend).register("dupuser", &password);
    assert_eq!(fresh, Ok(()));
    // The identifier is already taken; the backend fails, the caller sees the
    // same success as for a fresh registration.
    let duplicate = handle(&backend).register("dupuser", &password);
    assert_eq!(duplicate, Ok(()));

    backend.state.borrow_mut().fail_registration = true;
    let masked = handle(&backend).register("otheruser", &password);
    assert_eq!(masked, Ok(()));
}

#[test]
fn registration_normalizes_and_hashes() {
    let backend = MemoryBackend::default();
    let result = handle(&backend).register("NewUser42", &"a".repeat(20));
    assert_eq!(result, Ok(()));

    let calls = backend.state.borrow().register_calls.clone();
    assert_eq!(calls.len(), 1);
    let (stored_name, stored_hash) = &calls[0];
    assert_eq!(stored_name, "newuser42");
    assert!(stored_hash.starts_with("$argon2id$"));

    // What registration stored authenticates with the same password.
    let login_after = handle(&backend).authenticate_creds("newuser42", &"a".repeat(20));
    assert!(login_after.is_ok());
}

#[test]
fn rejected_registration_calls_no_backend() {
    let backend = MemoryBackend::default();
    let _ = handle(&backend).register("user@example", &"a".repeat(20));
    let _ = handle(&backend).register("validname", "short");
    assert!(backend.state.borrow().register_calls.is_empty());
}

#[test]
fn login_flow_binds_a_session() {
    let hash = hash_password("correct horse batt").expect("hashing succeeds");
    let backend = MemoryBackend::with_user("alice9", &hash, &["UserRead"]);

    // The login flow lowercases the submitted identifier itself.
    let (user, session_id) =
        login(&backend, "Alice9", "correct horse batt").expect("valid credentials log in");
    assert_eq!(user.username(), "alice9");
    assert_eq!(session_id.len(), 44);

    // The session now authenticates, and authorization is enforced on it.
    let found = session_user(&backend, &session_id, &set_of(&["UserRead"]));
    assert_eq!(found.map(|u| u.username().to_string()), Ok("alice9".to_string()));

    let denied = session_user(&backend, &session_id, &set_of(&["AdminRead"]));
    assert!(matches!(denied, Err(Error::Authorization)));

    // After the session is removed the token no longer authenticates.
    backend.remove_session(&session_id);
    let gone = session_user(&backend, &session_id, &CapabilitySet::new());
    assert!(matches!(gone, Err(Error::Authentication)));
}

#[test]
fn login_failures_are_distinguished() {
    let hash = hash_password("correct horse batt").expect("hashing succeeds");
    let backend = MemoryBackend::with_user("alice9", &hash, &[]);

    let wrong = login(&backend, "alice9", "wrong password");
    assert!(matches!(wrong, Err(LoginError::Access(Error::Authentication))));

    backend.state.borrow_mut().fail_sessions = true;
    let unstored = login(&backend, "alice9", "correct horse batt");
    assert!(matches!(unstored, Err(LoginError::SessionStore)));
}

#[test]
fn session_ids_are_fresh_and_shaped() {
    let first = generate_session_id();
    let second = generate_session_id();
    assert_eq!(first.len(), 44);
    assert_eq!(second.len(), 44);
    // 32 bytes leave one padding character under standard base64.
    assert!(first.ends_with('='));
    assert_ne!(first, second);
}

#[test]
fn hashes_verify_only_their_own_password() {
    let hash = hash_password("a first password").expect("hashing succeeds");
    let other = hash_password("a first password").expect("hashing succeeds");
    // A fresh salt every time: equal passwords still give distinct hashes.
    assert_ne!(hash, other);

    let backend = MemoryBackend::with_user("bob42", &hash, &[]);
    assert!(handle(&backend).authenticate_creds("bob42", "a first password").is_ok());
    assert!(handle(&backend).authenticate_creds("bob42", "a First password").is_err());
}

#[test]
fn capability_sets_deduplicate_and_compare() {
    let mut caps = CapabilitySet::new();
    caps.insert("UserRead".to_string());
    caps.insert("UserRead".to_string());
    caps.insert("AdminRead".to_string());

    assert!(caps.contains(&"UserRead".to_string()));
    assert!(!caps.contains(&"UserWrite".to_string()));

    assert!(caps.is_superset(&set_of(&["UserRead"])));
    assert!(caps.is_superset(&set_of(&["UserRead", "AdminRead"])));
    assert!(caps.is_superset(&CapabilitySet::new()));
    assert!(!set_of(&["UserRead"]).is_superset(&caps));
}

#[test]
fn capability_labels() {
    assert_eq!(Capabilities::UserRead.label(), "UserRead");
    assert_eq!(Capabilities::AdminRead.label(), "AdminRead");
}

#[test]
fn principal_construction_enforces_the_identifier_policy() {
    let ok = Principal::new(
        "dora3".to_string(),
        "$argon2id$irrelevant".to_string(),
        set_of(&["UserRead"]),
    );
    let p = ok.expect("valid identifier is accepted");
    assert_eq!(p.username(), "dora3");
    assert_eq!(p.password_hash(), "$argon2id$irrelevant");

    let bad = Principal::new("not valid".to_string(), String::new(), CapabilitySet::new());
    assert!(bad.is_none());
}

#[test]
fn middleware_bundles_backend_and_requirement() {
    let backend = MemoryBackend::default();
    let mw: RustAuthMiddleware<MemoryBackend, Principal> =
        RustAuthMiddleware::new(backend, set_of(&["AdminRead"]));
    assert!(mw.required_capabilities.contains(&"AdminRead".to_string()));
    assert!(!mw.required_capabilities.contains(&"UserRead".to_string()));
}

#[test]
fn error_messages() {
    assert_eq!(Error::Authentication.message(), "Invalid credentials");
    assert_eq!(Error::Authorization.message(), "Permission denied");
    assert_eq!(Error::UsernamePolicy.message(), "Username does not match the policy");
    assert_eq!(Error::PasswordPolicy.message(), "Password does not match the policy");
}

#[test]
fn service_error_taxonomy() {
    let not_found = user_lookup_error(true, "ghost");
    assert_eq!(
        not_found,
        ServiceError::UserNotFound { username: "ghost".to_string() }
    );
    assert_eq!(not_found.name(), "UserNotFound");
    assert_eq!(not_found.status_code(), 404);

    let other = user_lookup_error(false, "ghost");
    assert_eq!(other, ServiceError::Default);
    assert_eq!(other.name(), "Internal Error");
    assert_eq!(other.status_code(), 500);

    let registration = user_registration_error("taken");
    assert_eq!(
        registration,
        ServiceError::UserRegistrationFailed { username: "taken".to_string() }
    );
    assert_eq!(registration.name(), "UserRegistrationFailed");
    assert_eq!(registration.status_code(), 500);
}
