use vstd::prelude::*;

use crate::error::KeyError;

verus! {

/// Length of the version prefix that the platform places in front of the
/// ciphertext of a wrapped key.
pub const ENVELOPE_PREFIX_LEN: usize = 5;

/// What remains of a wrapped key once its prefix is removed, or `None` where
/// the key is too short to carry the prefix.
pub open spec fn envelope_payload(data: Seq<u8>) -> Option<Seq<u8>> {
    if data.len() < ENVELOPE_PREFIX_LEN {
        None
    } else {
        Some(data.subrange(ENVELOPE_PREFIX_LEN as int, data.len() as int))
    }
}

/// Removes the envelope prefix from a decoded wrapped key. The prefix bytes
/// are discarded without being checked.
pub fn strip_envelope(data: &[u8]) -> (r: Result<Vec<u8>, KeyError>)
    ensures
        data@.len() < ENVELOPE_PREFIX_LEN ==> r == Err::<Vec<u8>, KeyError>(KeyError::Envelope),
        data@.len() >= ENVELOPE_PREFIX_LEN ==> r is Ok,
        r matches Ok(blob) ==> blob@.len() == data@.len() - ENVELOPE_PREFIX_LEN,
        r matches Ok(blob) ==> blob@ == data@.subrange(
            ENVELOPE_PREFIX_LEN as int,
            data@.len() as int,
        ),
        r matches Ok(blob) ==> envelope_payload(data@) == Some(blob@),
{
    if data.len() < ENVELOPE_PREFIX_LEN {
        return Err(KeyError::Envelope);
    }
    let mut blob: Vec<u8> = Vec::new();
    let mut i: usize = ENVELOPE_PREFIX_LEN;
    while i < data.len()
        invariant
            ENVELOPE_PREFIX_LEN <= i <= data@.len(),
            blob@ == data@.subrange(ENVELOPE_PREFIX_LEN as int, i as int),
        decreases data@.len() - i,
    {
        blob.push(data[i]);
        i = i + 1;
    }
    Ok(blob)
}

} // verus!
