//! The credential store: validation-gated storage, retrieval across
//! rotations, overwrite and idempotent delete.

use tunnelforge_core::errors::StoreError;
use tunnelforge_core::store::CredentialStore;

#[test]
fn test_credential_storage() {
    let mut settings = CredentialStore::new("tunnelforge").expect("store");

    // Test storing valid token
    assert!(settings.store("test_key", "valid-token-12345678901234567890").is_ok());

    // Test retrieving stored token
    let retrieved = settings.get("test_key");
    assert!(retrieved.is_ok());
    assert_eq!(retrieved.unwrap(), "valid-token-12345678901234567890");

    // Test deleting token
    assert!(settings.delete("test_key").is_ok());

    // Test storing invalid token
    assert!(settings.store("test_key", "invalid!@#$").is_err());
}

#[test]
fn get_absent_name_is_not_found() {
    let store = CredentialStore::new("tunnelforge").expect("store");
    match store.get("never_stored") {
        Err(StoreError::NotFound) => {}
        other => panic!("expected NotFound, got {:?}", other.map(|_| ())),
    }
}

#[test]
fn delete_is_idempotent() {
    let mut store = CredentialStore::new("tunnelforge").expect("store");
    assert!(store.delete("missing").is_ok());
    store.store("k", "some-token-value").expect("store");
    assert!(store.delete("k").is_ok());
    assert!(store.delete("k").is_ok());
    assert!(matches!(store.get("k"), Err(StoreError::NotFound)));
}

#[test]
fn restore_overwrites_previous_value() {
    let mut store = CredentialStore::new("tunnelforge").expect("store");
    store.store("provider", "first-token").expect("store");
    store.store("provider", "second-token").expect("store");
    assert_eq!(store.get("provider").expect("get"), "second-token");
    assert_eq!(store.len(), 1);
}

#[test]
fn stored_secret_survives_rotations_within_bound() {
    let mut store = CredentialStore::new("tunnelforge").expect("store");
    store.store("ngrok_token", "token-abc-123").expect("store");
    store.rotate().expect("rotation");
    assert_eq!(store.get("ngrok_token").expect("get"), "token-abc-123");
    store.rotate().expect("rotation");
    assert_eq!(store.get("ngrok_token").expect("get"), "token-abc-123");
}

#[test]
fn stored_secret_becomes_unrecoverable_past_bound() {
    let mut store = CredentialStore::new("tunnelforge").expect("store");
    store.store("ngrok_token", "token-abc-123").expect("store");
    store.rotate().expect("rotation");
    store.rotate().expect("rotation");
    store.rotate().expect("rotation");
    match store.get("ngrok_token") {
        Err(StoreError::Decryption(_)) => {}
        other => panic!("expected Decryption, got {:?}", other.map(|_| ())),
    }
    // The name is still present; only the blob is unrecoverable.
    assert_eq!(store.len(), 1);
}

#[test]
fn validation_runs_before_any_cryptography() {
    let mut store = CredentialStore::new("tunnelforge").expect("store");
    assert!(matches!(store.store("k", ""), Err(StoreError::Validation(_))));
    let oversized = "A".repeat(10000);
    assert!(matches!(store.store("k", &oversized), Err(StoreError::Validation(_))));
    assert!(matches!(store.store("k", "has space"), Err(StoreError::Validation(_))));
    assert_eq!(store.len(), 0);
}

#[test]
fn namespace_is_kept() {
    let store = CredentialStore::new("tunnelforge").expect("store");
    assert_eq!(store.namespace(), "tunnelforge");
}
