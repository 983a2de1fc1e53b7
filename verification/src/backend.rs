//! The boundary to the native credential store.  The store is an external
//! collaborator: an opaque key-value store keyed by `(service, account)`
//! whose operations may fail.  Every call into it goes through one of the
//! trusted wrappers below; everything the wrappers return is handled by
//! verified code.

use vstd::prelude::*;

use crate::error::BackendError;
use keyring_core::Error as CoreStoreError;

verus! {

/// An entry of the native credential store, an opaque handle.
#[verifier::external_type_specification]
#[verifier::external_body]
pub struct ExEntry(keyring_core::Entry);

/// A failure reported by the native credential store, an opaque value until
/// `classify_error` reduces it to plain data.
#[verifier::external_body]
#[verifier::external_type_specification]
pub struct ExStoreError(CoreStoreError);

/// Relies on `keyring_core::Entry::new`: builds an entry for the given
/// service and account against the process's default store, failing when no
/// default store is configured or the store rejects the names.
#[verifier::external_body]
pub(crate) fn entry_new(service: &str, account: &str) -> (r: Result<
    keyring_core::Entry,
    keyring_core::Error,
>) {
    keyring_core::Entry::new(service, account)
}

/// Relies on `keyring_core::Entry::set_password`: creates or overwrites the
/// entry's stored data with the given text.
#[verifier::external_body]
pub(crate) fn entry_write(entry: &keyring_core::Entry, payload: &str) -> (r: Result<
    (),
    keyring_core::Error,
>) {
    entry.set_password(payload)
}

/// Relies on `keyring_core::Entry::get_password`: reads the entry's stored
/// data as text, reporting `NoEntry` when absent and `BadEncoding` when the
/// stored bytes are not UTF-8.
#[verifier::external_body]
pub(crate) fn entry_read(entry: &keyring_core::Entry) -> (r: Result<
    String,
    keyring_core::Error,
>) {
    entry.get_password()
}

/// Relies on `keyring_core::Entry::delete_credential`: removes the entry's
/// stored data, reporting `NoEntry` when it was already absent.
#[verifier::external_body]
pub(crate) fn entry_erase(entry: &keyring_core::Entry) -> (r: Result<
    (),
    keyring_core::Error,
>) {
    entry.delete_credential()
}

/// Relies on the variants of `keyring_core::Error`: each interesting variant
/// is moved to the matching case of the library's backend taxonomy, and any
/// other variant becomes a catch-all carrying its display text.
#[verifier::external_body]
pub(crate) fn classify_error(store_error: keyring_core::Error) -> (r: BackendError) {
    match store_error {
        keyring_core::Error::NoDefaultStore => BackendError::NoDefaultStore,
        keyring_core::Error::NoEntry => BackendError::NotFound,
        keyring_core::Error::Ambiguous(_) => BackendError::Ambiguous,
        keyring_core::Error::Invalid(attribute, reason) => BackendError::Invalid(attribute, reason),
        keyring_core::Error::BadEncoding(_) => BackendError::BadEncoding,
        other => BackendError::Platform(other.to_string()),
    }
}

} // verus!
