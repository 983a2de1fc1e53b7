//! The credential service: a service namespace set exactly once, and the
//! `set` / `get` / `delete` / `has` operations over it.

use vstd::prelude::*;

use crate::address::build_address;
use crate::backend::classify_error;
use crate::backend::entry_erase;
use crate::backend::entry_new;
use crate::backend::entry_read;
use crate::backend::entry_write;
use crate::codec::decode_payload;
use crate::codec::encode_value;
use crate::error::Error;
use crate::models::CredentialType;
use crate::models::CredentialValue;

verus! {

/// The decision the existence check and the deleter make on the result of a
/// probe read: a successful read means the entry is present, an absent entry
/// (`EntryNotFound`) is the ordinary answer "not present" rather than a
/// failure, and every other error of the probe is re-surfaced, not masked.
pub fn probe_decision(probe: Result<CredentialValue, Error>) -> (r: Result<bool, Error>)
    ensures
        probe matches Ok(_) ==> r == Ok::<bool, Error>(true),
        probe matches Err(e) ==> (e == Error::EntryNotFound ==> r == Ok::<bool, Error>(false)),
        probe matches Err(e) ==> (e != Error::EntryNotFound ==> r == Err::<bool, Error>(e)),
{
    match probe {
        Ok(_) => Ok(true),
        Err(Error::EntryNotFound) => Ok(false),
        Err(e) => Err(e),
    }
}

/// The credential service.  It owns the service namespace: a name set at
/// most once over the value's lifetime, immutable thereafter, relative to
/// which every credential is addressed.
pub struct KeyringImplementation {
    service: Option<String>,
}

impl KeyringImplementation {
    /// Whether the service namespace has been set.
    pub closed spec fn initialized(self) -> bool {
        self.service is Some
    }

    /// The service namespace, once set.
    pub closed spec fn service_spec(self) -> Seq<char>
        recommends
            self.initialized(),
    {
        match self.service {
            Some(s) => s@,
            None => Seq::empty(),
        }
    }

    /// A fresh service with no namespace set; every credential operation on
    /// it fails until `initialize_service` succeeds.
    pub fn new() -> (r: Self)
        ensures
            !r.initialized(),
    {
        KeyringImplementation { service: None }
    }

    /// Set the service namespace.  The first call succeeds and fixes the
    /// namespace; any later call fails with `AlreadyInitialized` and leaves
    /// the namespace untouched, so it cannot drift once credentials have
    /// been addressed under it.
    pub fn initialize_service(&mut self, service_name: String) -> (r: Result<(), Error>)
        ensures
            old(self).initialized() ==> (r matches Err(e) && e == Error::AlreadyInitialized
                && *final(self) == *old(self)),
            !old(self).initialized() ==> (r is Ok && final(self).initialized()
                && final(self).service_spec() == service_name@),
    {
        if self.service.is_some() {
            return Err(Error::AlreadyInitialized);
        }
        self.service = Some(service_name);
        Ok(())
    }

    /// The service namespace, or `NotInitialized` when it was never set.
    pub fn get_service_name(&self) -> (r: Result<&String, Error>)
        ensures
            self.initialized() ==> (r matches Ok(s) && s@ == self.service_spec()),
            !self.initialized() ==> (r matches Err(e) && e == Error::NotInitialized),
    {
        match &self.service {
            Some(s) => Ok(s),
            None => Err(Error::NotInitialized),
        }
    }

    /// Build the backing-store entry at the derived address for a
    /// `(username, credential type)` pair.
    fn create_entry(&self, username: &str, credential_type: CredentialType) -> (r: Result<
        keyring_core::Entry,
        Error,
    >)
        ensures
            !self.initialized() ==> (r matches Err(e) && e == Error::NotInitialized),
            self.initialized() ==> (r matches Err(e) ==> e != Error::NotInitialized && e
                != Error::AlreadyInitialized),
    {
        let service = match self.get_service_name() {
            Ok(s) => s,
            Err(e) => {
                return Err(e);
            },
        };
        let account = build_address(service.as_str(), username, credential_type);
        match entry_new(service.as_str(), account.as_str()) {
            Ok(entry) => Ok(entry),
            Err(store_error) => {
                let backend_error = classify_error(store_error);
                proof {
                    crate::error::lemma_translate_no_lifecycle_error(backend_error);
                }
                Err(Error::from_backend(backend_error))
            },
        }
    }

    /// Store a credential at the derived address, creating or overwriting
    /// the single entry there.  An empty username, or a value whose tag does
    /// not agree with `credential_type`, is rejected with `InvalidInput`
    /// before the store is asked to write anything.
    pub fn set(&self, username: &str, credential_type: CredentialType, value: CredentialValue) -> (r:
        Result<(), Error>)
        ensures
            !self.initialized() ==> (r matches Err(e) && e == Error::NotInitialized),
            self.initialized() && username@.len() == 0 ==> (r matches Err(e)
                && e matches Error::InvalidInput(_)),
            self.initialized() && !value.matches_type(credential_type) ==> (r matches Err(e)
                && e matches Error::InvalidInput(_)),
            self.initialized() ==> (r matches Err(e) ==> e != Error::NotInitialized && e
                != Error::AlreadyInitialized),
            r is Ok ==> (self.initialized() && username@.len() > 0 && value.matches_type(
                credential_type,
            )),
    {
        if self.service.is_none() {
            return Err(Error::NotInitialized);
        }
        if username.is_empty() {
            return Err(Error::InvalidInput("Username must not be empty".to_owned()));
        }
        let payload = match encode_value(credential_type, value) {
            Ok(p) => p,
            Err(e) => {
                return Err(e);
            },
        };
        let entry = match self.create_entry(username, credential_type) {
            Ok(entry) => entry,
            Err(e) => {
                return Err(e);
            },
        };
        match entry_write(&entry, payload.as_str()) {
            Ok(()) => Ok(()),
            Err(store_error) => {
                let backend_error = classify_error(store_error);
                proof {
                    crate::error::lemma_translate_no_lifecycle_error(backend_error);
                }
                Err(Error::from_backend(backend_error))
            },
        }
    }

    /// Read the credential at the derived address.  The result carries the
    /// requested kind: password text verbatim, or the secret bytes recovered
    /// from their text encoding.  An absent entry surfaces as
    /// `EntryNotFound`, an ambiguous match as `AmbiguousEntry`, a malformed
    /// encoding as `InvalidInput`.
    pub fn get(&self, username: &str, credential_type: CredentialType) -> (r: Result<
        CredentialValue,
        Error,
    >)
        ensures
            !self.initialized() ==> (r matches Err(e) && e == Error::NotInitialized),
            self.initialized() ==> (r matches Err(e) ==> e != Error::NotInitialized && e
                != Error::AlreadyInitialized),
            r matches Ok(v) ==> (self.initialized() && v.matches_type(credential_type)),
    {
        let entry = match self.create_entry(username, credential_type) {
            Ok(entry) => entry,
            Err(e) => {
                return Err(e);
            },
        };
        let text = match entry_read(&entry) {
            Ok(t) => t,
            Err(store_error) => {
                let backend_error = classify_error(store_error);
                proof {
                    crate::error::lemma_translate_no_lifecycle_error(backend_error);
                }
                return Err(Error::from_backend(backend_error));
            },
        };
        decode_payload(credential_type, text)
    }

    /// Ensure no credential is stored at the derived address.  The entry is
    /// probed first and the probe's outcome decided by `probe_decision`:
    /// when the entry is already absent the call succeeds at once without
    /// asking the store to erase anything, so deleting twice in a row both
    /// succeed; the store is asked to erase exactly when the probe found the
    /// entry present.  Any other probe failure is propagated, not masked.
    /// What the erase does to the store itself is stated over the store
    /// model: see `store::lemma_erase_idempotent` and
    /// `store::lemma_entry_lifecycle`.
    pub fn delete(&self, username: &str, credential_type: CredentialType) -> (r: Result<(), Error>)
        ensures
            !self.initialized() ==> (r matches Err(e) && e == Error::NotInitialized),
            self.initialized() ==> (r matches Err(e) ==> e != Error::NotInitialized && e
                != Error::AlreadyInitialized),
            r is Ok ==> self.initialized(),
    {
        let probe = self.get(username, credential_type);
        match probe_decision(probe) {
            Ok(true) => {
                let entry = match self.create_entry(username, credential_type) {
                    Ok(entry) => entry,
                    Err(e) => {
                        return Err(e);
                    },
                };
                match entry_erase(&entry) {
                    Ok(()) => Ok(()),
                    Err(store_error) => {
                        let backend_error = classify_error(store_error);
                        proof {
                            crate::error::lemma_translate_no_lifecycle_error(backend_error);
                        }
                        Err(Error::from_backend(backend_error))
                    },
                }
            },
            Ok(false) => Ok(()),
            Err(e) => Err(e),
        }
    }

    /// Whether a credential is stored at the derived address: a probe read,
    /// decided by `probe_decision`.  An absent entry is an ordinary `false`,
    /// never an error; every other failure of the probe is re-surfaced
    /// rather than swallowed.  How presence follows writes and erases of
    /// this and other addresses is stated over the store model: see
    /// `store::lemma_entry_lifecycle` and `store::lemma_address_isolation`.
    pub fn has(&self, username: &str, credential_type: CredentialType) -> (r: Result<bool, Error>)
        ensures
            !self.initialized() ==> (r matches Err(e) && e == Error::NotInitialized),
            self.initialized() ==> (r matches Err(e) ==> e != Error::NotInitialized && e
                != Error::AlreadyInitialized),
            !(r matches Err(e) && e == Error::EntryNotFound),
            r is Ok ==> self.initialized(),
    {
        let probe = self.get(username, credential_type);
        probe_decision(probe)
    }

    /// Store a UTF-8 password for the user.
    pub fn set_password(&self, username: &str, password: String) -> (r: Result<(), Error>)
        ensures
            !self.initialized() ==> (r matches Err(e) && e == Error::NotInitialized),
            self.initialized() && username@.len() == 0 ==> (r matches Err(e)
                && e matches Error::InvalidInput(_)),
            self.initialized() ==> (r matches Err(e) ==> e != Error::NotInitialized && e
                != Error::AlreadyInitialized),
            r is Ok ==> (self.initialized() && username@.len() > 0),
    {
        self.set(username, CredentialType::Password, CredentialValue::Password(password))
    }

    /// Store a binary secret for the user.
    pub fn set_secret(&self, username: &str, secret: Vec<u8>) -> (r: Result<(), Error>)
        ensures
            !self.initialized() ==> (r matches Err(e) && e == Error::NotInitialized),
            self.initialized() && username@.len() == 0 ==> (r matches Err(e)
                && e matches Error::InvalidInput(_)),
            self.initialized() ==> (r matches Err(e) ==> e != Error::NotInitialized && e
                != Error::AlreadyInitialized),
            r is Ok ==> (self.initialized() && username@.len() > 0),
    {
        self.set(username, CredentialType::Secret, CredentialValue::Secret(secret))
    }

    /// Read the user's password as text.
    pub fn get_password(&self, username: &str) -> (r: Result<String, Error>)
        ensures
            !self.initialized() ==> (r matches Err(e) && e == Error::NotInitialized),
            self.initialized() ==> (r matches Err(e) ==> e != Error::NotInitialized && e
                != Error::AlreadyInitialized),
            r is Ok ==> self.initialized(),
    {
        match self.get(username, CredentialType::Password) {
            Ok(CredentialValue::Password(password)) => Ok(password),
            Ok(_) => Err(Error::InvalidInput("Expected password".to_owned())),
            Err(e) => Err(e),
        }
    }

    /// Read the user's secret, decoded back to the bytes that were stored.
    pub fn get_secret(&self, username: &str) -> (r: Result<Vec<u8>, Error>)
        ensures
            !self.initialized() ==> (r matches Err(e) && e == Error::NotInitialized),
            self.initialized() ==> (r matches Err(e) ==> e != Error::NotInitialized && e
                != Error::AlreadyInitialized),
            r is Ok ==> self.initialized(),
    {
        match self.get(username, CredentialType::Secret) {
            Ok(CredentialValue::Secret(secret)) => Ok(secret),
            Ok(_) => Err(Error::InvalidInput("Expected secret".to_owned())),
            Err(e) => Err(e),
        }
    }

    /// Ensure the user has no stored password.
    pub fn delete_password(&self, username: &str) -> (r: Result<(), Error>)
        ensures
            !self.initialized() ==> (r matches Err(e) && e == Error::NotInitialized),
            self.initialized() ==> (r matches Err(e) ==> e != Error::NotInitialized && e
                != Error::AlreadyInitialized),
            r is Ok ==> self.initialized(),
    {
        self.delete(username, CredentialType::Password)
    }

    /// Ensure the user has no stored secret.
    pub fn delete_secret(&self, username: &str) -> (r: Result<(), Error>)
        ensures
            !self.initialized() ==> (r matches Err(e) && e == Error::NotInitialized),
            self.initialized() ==> (r matches Err(e) ==> e != Error::NotInitialized && e
                != Error::AlreadyInitialized),
            r is Ok ==> self.initialized(),
    {
        self.delete(username, CredentialType::Secret)
    }

    /// Whether the user has a stored password.
    pub fn has_password(&self, username: &str) -> (r: Result<bool, Error>)
        ensures
            !self.initialized() ==> (r matches Err(e) && e == Error::NotInitialized),
            self.initialized() ==> (r matches Err(e) ==> e != Error::NotInitialized && e
                != Error::AlreadyInitialized),
            !(r matches Err(e) && e == Error::EntryNotFound),
            r is Ok ==> self.initialized(),
    {
        self.has(username, CredentialType::Password)
    }

    /// Whether the user has a stored secret.
    pub fn has_secret(&self, username: &str) -> (r: Result<bool, Error>)
        ensures
            !self.initialized() ==> (r matches Err(e) && e == Error::NotInitialized),
            self.initialized() ==> (r matches Err(e) ==> e != Error::NotInitialized && e
                != Error::AlreadyInitialized),
            !(r matches Err(e) && e == Error::EntryNotFound),
            r is Ok ==> self.initialized(),
    {
        self.has(username, CredentialType::Secret)
    }
}

} // verus!
