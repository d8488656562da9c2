//! Recovery of a browser's master key from its Local State document.
//!
//! The pipeline reads the document, extracts the base64 text of the wrapped
//! key, decodes it, strips the fixed envelope prefix, hands the ciphertext to
//! the platform's unprotect service and renders the recovered key as
//! lowercase hexadecimal. The reading of the file and the platform call are
//! made by the caller; every decision between them is made here.
use vstd::prelude::*;

pub mod document;
pub mod envelope;
pub mod error;
pub mod hexcode;
pub mod recovery;

pub use document::parse_local_state;
pub use envelope::{strip_envelope, ENVELOPE_PREFIX_LEN};
pub use error::KeyError;
pub use hexcode::encode_key;
pub use recovery::{
    ciphertext_after_read, ciphertext_from_local_state, decode_wrapped_key, key_after_unprotect,
};
