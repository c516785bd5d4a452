//! An identity-verification and permission-enforcement engine.
//!
//! The engine authenticates a principal against a credential store without
//! revealing, through timing, whether the supplied identifier exists; it
//! sequences authentication before authorization with a typestate handle so
//! that a principal can only be retrieved after both steps succeeded; it
//! enforces capability-subset authorization and a safe registration policy.

pub mod capabilities;
pub mod engine;
pub mod hashing;
pub mod middleware;
pub mod principal;
pub mod service_errors;
pub mod text;

pub use capabilities::{Capabilities, CapabilitySet};
pub use engine::{AccessControl, AccessControlState, Authenticated, Authorized, Backend,
    BackendError, Error, Start};
pub use middleware::{Credentials, RustAuthMiddleware};
pub use principal::{Principal, User};
pub use service_errors::ServiceError;
