//! Random bytes.

#[allow(unused_imports)]
use vstd::prelude::*;

verus! {

/// The most random bytes that are drawn at once.
pub const MAX_RANDOM_BYTES: usize = 64;

/// `getrandom::fill` either fills a buffer of the requested length or fails
/// with a message. Nothing is known of the bytes themselves.
#[verifier::external_body]
pub(crate) fn random_bytes(length: usize) -> (outcome: Result<Vec<u8>, String>)
    requires
        length <= MAX_RANDOM_BYTES,
    ensures
        outcome matches Ok(bytes) ==> bytes@.len() == length,
{
    let mut bytes = vec![0u8; length];
    match getrandom::fill(&mut bytes) {
        Ok(()) => Ok(bytes),
        Err(error) => Err(error.to_string()),
    }
}

} // verus!
