//! The error taxonomy of the secret-protection core. Every cryptographic or
//! validation failure is surfaced to the caller as one of these typed values;
//! none is swallowed.

use vstd::prelude::*;
use crate::validate::ValidationError;

verus! {

/// The secure random source failed while producing key, nonce or salt
/// material. Fatal for the triggering call; the caller may retry.
#[derive(Clone, Copy, Debug, PartialEq, Eq, Structural)]
pub struct KeyGenerationError;

/// No retained key authenticates a blob: the blob is corrupt, forged, or
/// encrypted under a key that has aged out of the history. Non-retriable for
/// that blob.
#[derive(Clone, Copy, Debug, PartialEq, Eq, Structural)]
pub struct DecryptionError;

/// Why an encryption request could not produce a blob.
#[derive(Clone, Copy, Debug, PartialEq, Eq, Structural)]
pub enum EncryptionError {
    /// The key store holds no active key yet; rotation has never run.
    NoActiveKey,
    /// The random source failed while drawing the fresh nonce.
    KeyGeneration(KeyGenerationError),
}

/// Why a credential-store operation failed.
#[derive(Clone, Copy, Debug, PartialEq, Eq, Structural)]
pub enum StoreError {
    /// No credential of the requested name exists. Benign steady-state.
    NotFound,
    /// The value failed the token rules before any cryptographic work.
    Validation(ValidationError),
    /// Key or nonce material could not be drawn from the random source.
    KeyGeneration(KeyGenerationError),
    /// The stored blob is unrecoverable: no retained key authenticates it.
    Decryption(DecryptionError),
}

impl StoreError {
    /// A short human-readable description of the failure.
    pub fn message(&self) -> (r: &'static str)
        ensures
            r@.len() > 0,
    {
        let s = match self {
            StoreError::NotFound => "credential not found",
            StoreError::Validation(_) => "value failed validation",
            StoreError::KeyGeneration(_) => "random source failed",
            StoreError::Decryption(_) => "secret unrecoverable",
        };
        proof {
            reveal_strlit("credential not found");
            reveal_strlit("value failed validation");
            reveal_strlit("random source failed");
            reveal_strlit("secret unrecoverable");
        }
        s
    }
}

} // verus!
