//! The trusted boundary to the system's cryptographically secure random
//! source. Nothing can be promised about the bytes themselves; callers state
//! what holds of every outcome.

use vstd::prelude::*;
use crate::errors::KeyGenerationError;

verus! {

/// Relies on `ring::rand::SystemRandom::new` and `SecureRandom::fill`: fills a
/// buffer of `n` bytes from the system's cryptographically secure random
/// source. Only the length of a successful result is promised; the contents
/// are random and differ between calls.
#[verifier::external_body]
pub(crate) fn random_bytes(n: usize) -> (r: Result<Vec<u8>, KeyGenerationError>)
    ensures
        r matches Ok(v) ==> v@.len() == n,
{
    let rng = ring::rand::SystemRandom::new();
    let mut buf = vec![0u8; n];
    match ring::rand::SecureRandom::fill(&rng, &mut buf) {
        Ok(()) => Ok(buf),
        Err(_) => Err(KeyGenerationError),
    }
}

} // verus!
