//! A small cross-platform credential-storage library.
//!
//! The library stores two kinds of per-user credentials — UTF-8 passwords and
//! arbitrary binary secrets — in an operating-system credential store.  Its
//! core is the addressing layer, which maps a `(service, username, credential
//! type)` triple to a single backing-store account, and the encoding layer,
//! which round-trips binary secrets through a backend that is only safe for
//! text payloads.

pub mod address;
pub mod backend;
pub mod codec;
pub mod implementation;
pub mod error;
pub mod models;
pub mod store;

pub use error::BackendError;
pub use error::Error;
pub use implementation::KeyringImplementation;
pub use models::CredentialType;
pub use models::CredentialValue;
