//! The service-level error taxonomy the storage layer reports to callers,
//! and the mapping of storage failures into it.

use vstd::prelude::*;

verus! {

/// Enum of the available errors in the auth service.
#[derive(Debug, PartialEq, Eq)]
pub enum ServiceError {
    /// No user is registered under the identifier.
    UserNotFound { username: String },
    /// The user could not be registered.
    UserRegistrationFailed { username: String },
    /// Any other storage failure.
    Default,
}

impl ServiceError {
    /// The name of this error kind.
    pub open spec fn spec_name(self) -> Seq<char> {
        match self {
            ServiceError::UserRegistrationFailed { .. } => "UserRegistrationFailed"@,
            ServiceError::UserNotFound { .. } => "UserNotFound"@,
            ServiceError::Default => "Internal Error"@,
        }
    }

    /// Returns the name of a certain error.
    pub fn name(&self) -> (r: String)
        ensures
            r@ == self.spec_name(),
    {
        match self {
            ServiceError::UserRegistrationFailed { .. } => "UserRegistrationFailed".to_owned(),
            ServiceError::UserNotFound { .. } => "UserNotFound".to_owned(),
            ServiceError::Default => "Internal Error".to_owned(),
        }
    }

    /// The HTTP status code this error maps to.
    pub open spec fn spec_status_code(self) -> u16 {
        match self {
            ServiceError::UserRegistrationFailed { .. } => 500,
            ServiceError::UserNotFound { .. } => 404,
            ServiceError::Default => 500,
        }
    }

    /// The HTTP status code this error maps to: not-found for a missing user,
    /// an internal error otherwise.
    pub fn status_code(&self) -> (r: u16)
        ensures
            r == self.spec_status_code(),
    {
        match self {
            ServiceError::UserRegistrationFailed { .. } => 500,
            ServiceError::UserNotFound { .. } => 404,
            ServiceError::Default => 500,
        }
    }
}

/// Map a storage failure during a user lookup to the service taxonomy:
/// a missing row means the user is unknown, anything else is internal.
pub fn user_lookup_error(row_not_found: bool, username: &str) -> (r: ServiceError)
    ensures
        row_not_found ==> (r matches ServiceError::UserNotFound { username: u } && u@ == username@),
        !row_not_found ==> r == ServiceError::Default,
{
    if row_not_found {
        ServiceError::UserNotFound { username: username.to_owned() }
    } else {
        ServiceError::Default
    }
}

/// Map a storage failure during registration to the service taxonomy.
pub fn user_registration_error(username: &str) -> (r: ServiceError)
    ensures
        r matches ServiceError::UserRegistrationFailed { username: u } && u@ == username@,
{
    ServiceError::UserRegistrationFailed { username: username.to_owned() }
}

} // verus!
