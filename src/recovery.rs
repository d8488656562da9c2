use vstd::prelude::*;

use base64::Engine;

use crate::document::{local_state_key_text, parse_local_state, parsed_json, JsonTree};
use crate::envelope::{envelope_payload, strip_envelope};
use crate::error::KeyError;
use crate::hexcode::{encode_key, lower_hex};

verus! {

#[verifier::external_type_specification]
#[verifier::external_body]
pub struct ExDecodeError(base64::DecodeError);

/// The bytes that base64's `STANDARD` engine (standard alphabet, canonical
/// padding) decodes a text to, or `None` where that engine rejects the text.
pub uninterp spec fn base64_decoded(text: Seq<char>) -> Option<Seq<u8>>;

/// Relies on `Engine::decode` of base64's `STANDARD` engine: it fails exactly
/// when that engine rejects the text, and otherwise returns the decoded
/// bytes.
#[verifier::external_body]
fn decode_base64(text: &str) -> (r: Result<Vec<u8>, base64::DecodeError>)
    ensures
        match r {
            Ok(b) => base64_decoded(text@) == Some(b@),
            Err(_) => base64_decoded(text@) is None,
        },
{
    base64::engine::general_purpose::STANDARD.decode(text)
}

/// The bytes of a byte result, its error unchanged.
pub open spec fn bytes_result(r: Result<Vec<u8>, KeyError>) -> Result<Seq<u8>, KeyError> {
    match r {
        Ok(b) => Ok(b@),
        Err(e) => Err(e),
    }
}

/// The ciphertext that a Local State document hands to the unprotect
/// service: its key text, base64-decoded, without the envelope prefix. The
/// first stage that fails gives the error.
pub open spec fn ciphertext_of(text: Seq<char>) -> Result<Seq<u8>, KeyError> {
    match local_state_key_text(text) {
        Err(e) => Err(e),
        Ok(k) => match base64_decoded(k) {
            None => Err(KeyError::Encoding),
            Some(bytes) => match envelope_payload(bytes) {
                None => Err(KeyError::Envelope),
                Some(blob) => Ok(blob),
            },
        },
    }
}

/// A document that parses but has no `os_crypt` member fails with
/// `MissingField`, whatever else it holds: nothing is decoded.
pub proof fn lemma_missing_section_fails_first(text: Seq<char>)
    requires
        parsed_json(text) matches Some(doc) && !(doc matches JsonTree::Object(m)
            && m.contains_key("os_crypt"@)),
    ensures
        ciphertext_of(text) == Err::<Seq<u8>, KeyError>(KeyError::MissingField),
{
}

/// Decodes the base64 text of a wrapped key.
pub fn decode_wrapped_key(text: &str) -> (r: Result<Vec<u8>, KeyError>)
    ensures
        match base64_decoded(text@) {
            Some(b) => r matches Ok(v) && v@ == b,
            None => r == Err::<Vec<u8>, KeyError>(KeyError::Encoding),
        },
{
    match decode_base64(text) {
        Ok(b) => Ok(b),
        Err(_) => Err(KeyError::Encoding),
    }
}

/// Extracts the ciphertext to unprotect from the text of a Local State
/// document.
pub fn ciphertext_from_local_state(text: &str) -> (r: Result<Vec<u8>, KeyError>)
    ensures
        bytes_result(r) == ciphertext_of(text@),
{
    let key_text = parse_local_state(text);
    let key_text = match key_text {
        Ok(k) => k,
        Err(e) => return Err(e),
    };
    let wrapped = decode_wrapped_key(key_text.as_str());
    let wrapped = match wrapped {
        Ok(w) => w,
        Err(e) => return Err(e),
    };
    let r = strip_envelope(wrapped.as_slice());
    assert(bytes_result(r) == ciphertext_of(text@));
    r
}

/// The step that follows reading the configuration file at `path`:
/// `contents` is its text, or `None` where it could not be read.
pub fn ciphertext_after_read(path: String, contents: Option<String>) -> (r: Result<Vec<u8>, KeyError>)
    ensures
        contents is None ==> r == Err::<Vec<u8>, KeyError>(KeyError::Io(path)),
        contents matches Some(t) ==> bytes_result(r) == ciphertext_of(t@),
{
    match contents {
        None => Err(KeyError::Io(path)),
        Some(t) => ciphertext_from_local_state(t.as_str()),
    }
}

/// The step that follows the unprotect call: `outcome` is the recovered key,
/// or `None` where the service reported failure.
pub fn key_after_unprotect(outcome: Option<Vec<u8>>) -> (r: Result<String, KeyError>)
    ensures
        outcome is None ==> r == Err::<String, KeyError>(KeyError::Decryption),
        outcome matches Some(k) ==> (r matches Ok(s) && s@ == lower_hex(k@)),
{
    match outcome {
        None => Err(KeyError::Decryption),
        Some(k) => Ok(encode_key(k.as_slice())),
    }
}

} // verus!
