//! The library's closed error taxonomy, and the translation of backend
//! failures into it.

use vstd::prelude::*;

verus! {

/// Every failure the library surfaces to a caller.  Backend failures are
/// translated into this taxonomy at the boundary and never passed through
/// as raw backend values.
#[derive(Clone, Debug)]
pub enum Error {
    /// No default credential store has been configured.
    NoDefaultStore,
    /// No entry exists at the derived address.
    EntryNotFound,
    /// The backend matched more than one entry.
    AmbiguousEntry,
    /// An input was rejected; the payload is the reason.
    InvalidInput(String),
    /// An unrecognized backend failure; the payload is its message.
    PlatformError(String),
    /// Stored data was not valid UTF-8 text.
    InvalidUtf8,
    /// An input/output failure; the payload is its message.
    Io(String),
    /// The service namespace was already set by an earlier call.
    AlreadyInitialized,
    /// The service namespace has not been set yet.
    NotInitialized,
}

/// What the backing store can report, with backend-specific detail already
/// reduced to plain values.  This is the library's view of a backend failure;
/// `Error::from_backend` maps it into the caller-facing taxonomy.
#[derive(Clone, Debug)]
pub enum BackendError {
    /// No default store was configured.
    NoDefaultStore,
    /// No entry matched.
    NotFound,
    /// More than one entry matched.
    Ambiguous,
    /// A parameter was rejected; the payloads name the parameter and the reason.
    Invalid(String, String),
    /// The stored bytes were not valid UTF-8 text.
    BadEncoding,
    /// Any other backend failure, carrying its message for diagnosis.
    Platform(String),
}

/// The translation table from backend failures to the caller-facing taxonomy.
pub open spec fn translate_spec(backend_error: BackendError) -> Error {
    match backend_error {
        BackendError::NoDefaultStore => Error::NoDefaultStore,
        BackendError::NotFound => Error::EntryNotFound,
        BackendError::Ambiguous => Error::AmbiguousEntry,
        BackendError::Invalid(attribute, _) => Error::InvalidInput(attribute),
        BackendError::BadEncoding => Error::InvalidUtf8,
        BackendError::Platform(message) => Error::PlatformError(message),
    }
}

impl Error {
    /// Translate a backend failure into the library's taxonomy, exactly as
    /// `translate_spec` says.
    pub fn from_backend(backend_error: BackendError) -> (r: Error)
        ensures
            r == translate_spec(backend_error),
    {
        match backend_error {
            BackendError::NoDefaultStore => Error::NoDefaultStore,
            BackendError::NotFound => Error::EntryNotFound,
            BackendError::Ambiguous => Error::AmbiguousEntry,
            BackendError::Invalid(attribute, _) => Error::InvalidInput(attribute),
            BackendError::BadEncoding => Error::InvalidUtf8,
            BackendError::Platform(message) => Error::PlatformError(message),
        }
    }
}

/// Translation never produces a namespace-lifecycle error: those arise only
/// from the library's own initialization checks, never from the backend.
pub proof fn lemma_translate_no_lifecycle_error(backend_error: BackendError)
    ensures
        translate_spec(backend_error) != Error::NotInitialized,
        translate_spec(backend_error) != Error::AlreadyInitialized,
{
}

} // verus!
