//! Key rotation, envelope encryption and password hashing, exercised against
//! the real cryptographic backends.

use tunnelforge_core::cipher::EnvelopeCipher;
use tunnelforge_core::keys::KeyManager;
use tunnelforge_core::password::{hash_password, hex_decode, hex_encode, verify_password};

#[test]
fn test_key_rotation() {
    let mut keys = KeyManager::new(2);
    keys.rotate().expect("initial rotation");
    let mut cipher = EnvelopeCipher::new(keys);

    let data = b"test data";
    let encrypted = cipher.encrypt(data).expect("encrypt");

    let decrypted = cipher.decrypt(&encrypted).expect("decrypt");
    assert_eq!(data.as_ref(), decrypted.as_slice());

    // Rotate and verify old encrypted data still decrypts.
    cipher.rotate().expect("rotation");
    let decrypted = cipher.decrypt(&encrypted).expect("decrypt after rotation");
    assert_eq!(data.as_ref(), decrypted.as_slice());
}

#[test]
fn round_trip_various_plaintexts() {
    let mut keys = KeyManager::new(2);
    keys.rotate().expect("initial rotation");
    let cipher = EnvelopeCipher::new(keys);

    let cases: Vec<Vec<u8>> = vec![
        Vec::new(),
        vec![0u8],
        vec![0xffu8; 1],
        b"hello world".to_vec(),
        (0u16..=255).map(|b| b as u8).collect(),
        vec![7u8; 4096],
    ];
    for plain in cases {
        let blob = cipher.encrypt(&plain).expect("encrypt");
        assert_eq!(blob.nonce.len(), 12);
        assert_eq!(blob.ciphertext_with_tag.len(), plain.len() + 16);
        let back = cipher.decrypt(&blob).expect("decrypt");
        assert_eq!(back, plain);
    }
}

#[test]
fn fresh_nonce_every_encryption() {
    let mut keys = KeyManager::new(2);
    keys.rotate().expect("initial rotation");
    let cipher = EnvelopeCipher::new(keys);

    let a = cipher.encrypt(b"same plaintext").expect("encrypt");
    let b = cipher.encrypt(b"same plaintext").expect("encrypt");
    assert_ne!(a.nonce, b.nonce);
    assert_ne!(a.ciphertext_with_tag, b.ciphertext_with_tag);
}

#[test]
fn rotation_survivability_until_eviction() {
    let mut keys = KeyManager::new(2);
    keys.rotate().expect("initial rotation");
    let mut cipher = EnvelopeCipher::new(keys);

    let blob = cipher.encrypt(b"durable secret").expect("encrypt");

    // Up to `retention_count` rotations the sealing key stays reachable.
    cipher.rotate().expect("rotation");
    assert_eq!(cipher.decrypt(&blob).expect("after one rotation"), b"durable secret");
    cipher.rotate().expect("rotation");
    assert_eq!(cipher.decrypt(&blob).expect("after two rotations"), b"durable secret");

    // One rotation beyond the bound evicts it.
    cipher.rotate().expect("rotation");
    assert!(cipher.decrypt(&blob).is_err());
}

#[test]
fn bounded_history_after_many_rotations() {
    let mut keys = KeyManager::new(2);
    for _ in 0..7 {
        keys.rotate().expect("rotation");
    }
    assert_eq!(keys.history_len(), 2);
    assert!(keys.has_active());
    assert_eq!(keys.retention_count(), 2);
}

#[test]
fn history_grows_only_to_the_bound() {
    let mut keys = KeyManager::new(3);
    assert_eq!(keys.history_len(), 0);
    assert!(!keys.has_active());
    keys.rotate().expect("rotation");
    assert_eq!(keys.history_len(), 0);
    keys.rotate().expect("rotation");
    assert_eq!(keys.history_len(), 1);
    keys.rotate().expect("rotation");
    assert_eq!(keys.history_len(), 2);
    keys.rotate().expect("rotation");
    assert_eq!(keys.history_len(), 3);
    keys.rotate().expect("rotation");
    assert_eq!(keys.history_len(), 3);
}

#[test]
fn encrypt_without_active_key_fails() {
    let keys = KeyManager::new(2);
    let cipher = EnvelopeCipher::new(keys);
    assert!(cipher.encrypt(b"anything").is_err());
    let mut keys = KeyManager::new(2);
    keys.rotate().expect("rotation");
    let cipher = EnvelopeCipher::new(keys);
    assert!(cipher.encrypt(b"anything").is_ok());
}

#[test]
fn tamper_detection_every_bit() {
    let mut keys = KeyManager::new(2);
    keys.rotate().expect("initial rotation");
    let cipher = EnvelopeCipher::new(keys);

    let blob = cipher.encrypt(b"integrity").expect("encrypt");
    for i in 0..blob.ciphertext_with_tag.len() {
        for bit in 0..8 {
            let mut tampered_ct = blob.ciphertext_with_tag.clone();
            tampered_ct[i] ^= 1u8 << bit;
            let tampered = tunnelforge_core::cipher::EncryptedBlob {
                nonce: blob.nonce.clone(),
                ciphertext_with_tag: tampered_ct,
            };
            assert!(cipher.decrypt(&tampered).is_err());
        }
    }
}

#[test]
fn blob_bytes_round_trip() {
    let mut keys = KeyManager::new(2);
    keys.rotate().expect("initial rotation");
    let cipher = EnvelopeCipher::new(keys);

    let blob = cipher.encrypt(b"persisted").expect("encrypt");
    let bytes = blob.to_bytes();
    assert_eq!(bytes.len(), 12 + blob.ciphertext_with_tag.len());
    let back = tunnelforge_core::cipher::EncryptedBlob::from_bytes(&bytes).expect("parse");
    assert_eq!(back.nonce, blob.nonce);
    assert_eq!(back.ciphertext_with_tag, blob.ciphertext_with_tag);
    let decrypted = cipher.decrypt(&back).expect("decrypt parsed blob");
    assert_eq!(decrypted, b"persisted");

    // Too short for a nonce and a tag: refused.
    assert!(tunnelforge_core::cipher::EncryptedBlob::from_bytes(&[0u8; 27]).is_none());
}

#[test]
fn test_password_hashing() {
    let password = "test_password";
    let hash = hash_password(password).expect("hash");

    assert!(verify_password(password, &hash));
    assert!(!verify_password("wrong_password", &hash));
}

#[test]
fn password_hashes_are_salted() {
    let a = hash_password("same password").expect("hash");
    let b = hash_password("same password").expect("hash");
    assert_ne!(a, b);
    assert!(verify_password("same password", &a));
    assert!(verify_password("same password", &b));
}

#[test]
fn password_hash_shape_and_malformed_inputs() {
    let hash = hash_password("pw").expect("hash");
    // 16 salt bytes and 64 derived bytes, hex-spelled around one separator.
    let parts: Vec<&str> = hash.split('$').collect();
    assert_eq!(parts.len(), 2);
    assert_eq!(parts[0].len(), 32);
    assert_eq!(parts[1].len(), 128);

    assert!(!verify_password("pw", ""));
    assert!(!verify_password("pw", "no separator"));
    assert!(!verify_password("pw", "zz$zz"));
    assert!(!verify_password("pw", "abc$abcd"));
    let doubled = format!("{}${}", parts[0], hash);
    assert!(!verify_password("pw", &doubled));
}

#[test]
fn hex_codec_round_trip() {
    let data: Vec<u8> = (0u16..=255).map(|b| b as u8).collect();
    let encoded = hex_encode(&data);
    assert_eq!(encoded.len(), 512);
    assert_eq!(&encoded[..8], "00010203");
    let decoded = hex_decode(&encoded).expect("decode");
    assert_eq!(decoded, data);

    assert_eq!(hex_encode(&[0xde, 0xad, 0xbe, 0xef]), "deadbeef");
    assert_eq!(hex_decode("deadbeef").expect("decode"), vec![0xde, 0xad, 0xbe, 0xef]);
    assert!(hex_decode("abc").is_none());
    assert!(hex_decode("zz").is_none());
    assert!(hex_decode("AB").is_none());
}
