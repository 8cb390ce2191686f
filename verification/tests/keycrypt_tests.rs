use keystore::errors::KeystoreError;
use keystore::keycrypt::{decrypt, encrypt};

fn tampering_any_byte_fails(lo: usize, hi: usize) {
    let secret = [5u8; 32];
    let pass = b"tamper-pass";
    let record = encrypt(&secret, pass).unwrap();
    for i in lo..hi {
        let mut bad = record.clone();
        bad[i] ^= 0x01;
        assert_eq!(decrypt(&bad, pass).unwrap_err(), KeystoreError::AuthenticationFailure);
    }
}

#[test]
fn roundtrip_restores_secret() {
    let secret = [42u8; 32];
    let record = encrypt(&secret, b"hunter2").unwrap();
    assert_eq!(record.len(), 92);
    let back = decrypt(&record, b"hunter2").unwrap();
    assert_eq!(back, secret.to_vec());
}

#[test]
fn roundtrip_with_empty_passphrase() {
    let secret = [0u8; 32];
    let record = encrypt(&secret, b"").unwrap();
    let back = decrypt(&record, b"").unwrap();
    assert_eq!(back, secret.to_vec());
}

#[test]
fn two_encryptions_of_same_secret_differ() {
    let secret = [1u8; 32];
    let r1 = encrypt(&secret, b"p").unwrap();
    let r2 = encrypt(&secret, b"p").unwrap();
    assert_ne!(r1, r2);
}

#[test]
fn wrong_passphrase_fails_authentication() {
    let secret = [9u8; 32];
    let record = encrypt(&secret, b"first passphrase").unwrap();
    assert_eq!(
        decrypt(&record, b"second passphrase").unwrap_err(),
        KeystoreError::AuthenticationFailure
    );
}

#[test]
fn tampered_salt_fails_authentication() {
    tampering_any_byte_fails(0, 32);
}

#[test]
fn tampered_nonce_fails_authentication() {
    tampering_any_byte_fails(32, 44);
}

#[test]
fn tampered_ciphertext_fails_authentication() {
    tampering_any_byte_fails(44, 76);
}

#[test]
fn tampered_tag_fails_authentication() {
    tampering_any_byte_fails(76, 92);
}

#[test]
fn short_buffer_is_malformed() {
    for len in [0usize, 1, 31, 43] {
        let buf = vec![0u8; len];
        assert_eq!(decrypt(&buf, b"pass").unwrap_err(), KeystoreError::MalformedRecord);
    }
    let buf = vec![0u8; 44];
    assert_eq!(decrypt(&buf, b"pass").unwrap_err(), KeystoreError::AuthenticationFailure);
}
