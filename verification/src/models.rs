//! The two credential shapes and their canonical names.

use vstd::prelude::*;

verus! {

/// The closed enumeration of credential kinds.  Each kind has a canonical
/// lowercase name that is embedded in every derived backing-store address,
/// so the names must never change.
#[derive(Clone, Copy, Debug, PartialEq, Eq, Structural)]
pub enum CredentialType {
    /// A UTF-8 password, stored verbatim.
    Password,
    /// A binary secret, stored under a reversible text encoding.
    Secret,
}

impl CredentialType {
    /// The canonical name of this credential kind, as a sequence of characters.
    pub open spec fn name_spec(self) -> Seq<char> {
        match self {
            CredentialType::Password => "password"@,
            CredentialType::Secret => "secret"@,
        }
    }

    /// The canonical lowercase name, used for display and as the last
    /// component of a derived address.
    pub fn canonical_name(&self) -> (r: &'static str)
        ensures
            r@ == self.name_spec(),
    {
        match self {
            CredentialType::Password => "password",
            CredentialType::Secret => "secret",
        }
    }
}

/// A credential payload, tagged with its shape.  The tag must agree with the
/// `CredentialType` used to address it; a mismatch is rejected before any
/// backend call.
#[derive(Clone, Debug)]
pub enum CredentialValue {
    /// UTF-8 password text.
    Password(String),
    /// Arbitrary secret bytes.
    Secret(Vec<u8>),
}

impl CredentialValue {
    /// Whether this value's tag agrees with the given credential kind.
    pub open spec fn matches_type(self, credential_type: CredentialType) -> bool {
        match (credential_type, self) {
            (CredentialType::Password, CredentialValue::Password(_)) => true,
            (CredentialType::Secret, CredentialValue::Secret(_)) => true,
            _ => false,
        }
    }
}

} // verus!
