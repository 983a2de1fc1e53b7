//! The encoding layer: binary secrets are carried through the text-only
//! backend under a reversible base64 encoding; passwords pass through
//! verbatim.

use vstd::prelude::*;

use base64::Engine;

use crate::error::Error;
use crate::models::CredentialType;
use crate::models::CredentialValue;

verus! {

/// The standard, padded base64 encoding of a byte sequence, as produced by
/// the base64 crate's `STANDARD` engine.  It depends on the bytes alone.
pub uninterp spec fn b64_of(bytes: Seq<u8>) -> Seq<char>;

/// Relies on base64's `STANDARD` engine `encode`: standard alphabet with
/// padding, a pure function of the input bytes.
#[verifier::external_body]
fn b64_encode(bytes: &[u8]) -> (r: String)
    ensures
        r@ == b64_of(bytes@),
{
    base64::engine::general_purpose::STANDARD.encode(bytes)
}

/// Relies on base64's `STANDARD` engine `decode`: it accepts exactly the
/// canonical padded encodings (trailing bits and padding are checked), so it
/// fails only on text that is no encoding, and whatever it accepts is the one
/// sequence of bytes whose encoding was given.
#[verifier::external_body]
fn b64_decode(text: &str) -> (r: Option<Vec<u8>>)
    ensures
        r matches Some(v) ==> text@ == b64_of(v@),
        r matches Some(v) ==> forall|b: Seq<u8>| text@ == b64_of(b) ==> v@ == b,
        r is None ==> forall|b: Seq<u8>| text@ != b64_of(b),
{
    base64::engine::general_purpose::STANDARD.decode(text).ok()
}

/// The text payload written to the backing store for a value addressed under
/// the given credential kind: password text verbatim, secret bytes base64
/// encoded, and nothing at all when the tag does not agree with the kind.
pub open spec fn payload_spec(credential_type: CredentialType, value: CredentialValue) -> Option<
    Seq<char>,
> {
    match (credential_type, value) {
        (CredentialType::Password, CredentialValue::Password(p)) => Some(p@),
        (CredentialType::Secret, CredentialValue::Secret(b)) => Some(b64_of(b@)),
        _ => None,
    }
}

/// Turn a credential value into the text payload the backing store receives.
/// A tag that does not agree with the requested kind is rejected, so no
/// backend call is made for mismatched input.
pub fn encode_value(credential_type: CredentialType, value: CredentialValue) -> (r: Result<
    String,
    Error,
>)
    ensures
        match payload_spec(credential_type, value) {
            Some(p) => r matches Ok(s) && s@ == p,
            None => r matches Err(e) && e matches Error::InvalidInput(_),
        },
{
    match (credential_type, value) {
        (CredentialType::Password, CredentialValue::Password(p)) => Ok(p),
        (CredentialType::Secret, CredentialValue::Secret(b)) => Ok(b64_encode(b.as_slice())),
        _ => Err(Error::InvalidInput("Credential type and value type mismatch".to_owned())),
    }
}

/// Turn a text payload read from the backing store back into a credential
/// value of the requested kind.  For passwords the text is returned verbatim;
/// for secrets the text is base64-decoded, and in particular decoding returns
/// exactly the bytes whose encoding was stored, so a write followed by a read
/// loses nothing.  Malformed encodings are rejected, never truncated or
/// substituted.
pub fn decode_payload(credential_type: CredentialType, text: String) -> (r: Result<
    CredentialValue,
    Error,
>)
    ensures
        credential_type is Password ==> (r matches Ok(v) && v matches CredentialValue::Password(p)
            && p@ == text@),
        credential_type is Secret ==> match r {
            Ok(v) => v matches CredentialValue::Secret(b) && text@ == b64_of(b@),
            Err(e) => e matches Error::InvalidInput(_) && (forall|b: Seq<u8>| text@ != b64_of(b)),
        },
        forall|b: Seq<u8>|
            (credential_type is Secret && text@ == b64_of(b)) ==> (r matches Ok(v)
                && v matches CredentialValue::Secret(sb) && sb@ == b),
{
    match credential_type {
        CredentialType::Password => Ok(CredentialValue::Password(text)),
        CredentialType::Secret => {
            match b64_decode(text.as_str()) {
                Some(bytes) => Ok(CredentialValue::Secret(bytes)),
                None => Err(Error::InvalidInput("Invalid base64 data".to_owned())),
            }
        },
    }
}

} // verus!
