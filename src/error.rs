use vstd::prelude::*;

verus! {

/// The ways in which key recovery fails. Each stage fails fast with one of
/// these, and nothing after it runs.
#[derive(Debug, PartialEq, Eq)]
pub enum KeyError {
    /// The configuration file could not be read; holds the path that failed.
    Io(String),
    /// The document is not valid JSON.
    Parse,
    /// `os_crypt.encrypted_key` is absent or is not a string.
    MissingField,
    /// The key text is not valid base64.
    Encoding,
    /// The decoded key is shorter than the envelope prefix.
    Envelope,
    /// The platform's unprotect service reported failure.
    Decryption,
}

} // verus!
