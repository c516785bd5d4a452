//! The authenticated identity record, and the interface through which the
//! engine reads any backend's identity records.

use vstd::prelude::*;

use crate::capabilities::CapabilitySet;
use crate::text::valid_identifier;

verus! {

/// The operations an identity record must offer to the engine: the
/// identifier, the stored password-hash reference (an opaque PHC-formatted
/// string), and the capability set.
pub trait User {
    /// The identifier.
    spec fn spec_username(&self) -> Seq<char>;

    /// The stored PHC hash string.
    spec fn spec_password_hash(&self) -> Seq<char>;

    /// The capability labels attached to this record.
    spec fn spec_capabilities(&self) -> Set<Seq<char>>;

    fn username(&self) -> (r: &str)
        ensures
            r@ == self.spec_username(),
    ;

    fn password_hash(&self) -> (r: &str)
        ensures
            r@ == self.spec_password_hash(),
    ;

    fn capabilities(&self) -> (r: &CapabilitySet)
        ensures
            r@ == self.spec_capabilities(),
    ;
}

/// An identity record: identifier, password-hash reference and capability
/// set. Its identifier always satisfies the registration policy for
/// identifiers; records that would not are refused at construction.
pub struct Principal {
    username: String,
    password_hash: String,
    capabilities: CapabilitySet,
}

impl Principal {
    #[verifier::type_invariant]
    closed spec fn wf(self) -> bool {
        valid_identifier(self.username@)
    }

    /// Build an identity record. The identifier must meet the registration
    /// policy for identifiers (non-empty, ASCII alphanumerics only); any other
    /// identifier is refused.
    pub fn new(username: String, password_hash: String, capabilities: CapabilitySet) -> (r: Option<
        Principal,
    >)
        ensures
            r is Some <==> valid_identifier(username@),
            r matches Some(p) ==> {
                &&& p.spec_username() == username@
                &&& p.spec_password_hash() == password_hash@
                &&& p.spec_capabilities() == capabilities@
            },
    {
        if crate::text::identifier_ok(username.as_str()) {
            Some(Principal { username, password_hash, capabilities })
        } else {
            None
        }
    }
}

impl User for Principal {
    closed spec fn spec_username(&self) -> Seq<char> {
        self.username@
    }

    closed spec fn spec_password_hash(&self) -> Seq<char> {
        self.password_hash@
    }

    closed spec fn spec_capabilities(&self) -> Set<Seq<char>> {
        self.capabilities@
    }

    fn username(&self) -> (r: &str) {
        self.username.as_str()
    }

    fn password_hash(&self) -> (r: &str) {
        self.password_hash.as_str()
    }

    fn capabilities(&self) -> (r: &CapabilitySet) {
        &self.capabilities
    }
}

} // verus!
