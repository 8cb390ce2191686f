//! Passphrase-based sealing and unsealing of secret-key bytes.
//!
//! A sealed record is `salt ‖ nonce ‖ ciphertext‖tag`: a fresh 32-byte salt,
//! a fresh 12-byte nonce, and the output of an authenticated cipher run
//! under a key derived from the passphrase and the salt by a memory-hard
//! key-derivation function.

use vstd::prelude::*;

use vstd::slice::slice_subrange;

use rand::TryRngCore;

use crate::errors::KeystoreError;

verus! {

/// The length in bytes of the salt at the start of a record.
pub const SALT_LEN: usize = 32;

/// The length in bytes of the cipher nonce following the salt.
pub const NONCE_LEN: usize = 12;

/// The length in bytes of salt and nonce together: the least length a
/// record can have without being malformed.
pub const HEADER_LEN: usize = 44;

/// The length in bytes of the authentication tag the cipher appends.
pub const TAG_LEN: usize = 16;

/// The longest passphrase the key-derivation function accepts: its input
/// validation rejects longer ones.
pub const MAX_PASSPHRASE_LEN: usize = 0xffff_ffff;

/// The symmetric key derived from a passphrase and a salt by Argon2id with
/// the argon2 crate's default parameters: 32 bytes, a function of the
/// passphrase and salt alone. This name stands for what the argon2 crate
/// computes.
pub uninterp spec fn argon2_key(pass: Seq<u8>, salt: Seq<u8>) -> Seq<u8>;

/// The AES-256-GCM sealing of a message under a key and nonce, with no
/// associated data: ciphertext followed by the 16-byte tag, a function of
/// its three arguments alone. This name stands for what the aes-gcm crate
/// computes.
pub uninterp spec fn aes_gcm_seal(key: Seq<u8>, nonce: Seq<u8>, msg: Seq<u8>) -> Seq<u8>;

/// The AES-256-GCM opening of a ciphertext‖tag under a key and nonce:
/// `Some` of the plaintext when the tag verifies, `None` when it does not,
/// a function of its three arguments alone. This name stands for what the
/// aes-gcm crate computes.
pub uninterp spec fn aes_gcm_open(key: Seq<u8>, nonce: Seq<u8>, ct: Seq<u8>) -> Option<Seq<u8>>;

/// The salt stored at the front of a record.
pub open spec fn record_salt(rec: Seq<u8>) -> Seq<u8>
    recommends
        rec.len() >= HEADER_LEN,
{
    rec.subrange(0, SALT_LEN as int)
}

/// The nonce stored after the salt.
pub open spec fn record_nonce(rec: Seq<u8>) -> Seq<u8>
    recommends
        rec.len() >= HEADER_LEN,
{
    rec.subrange(SALT_LEN as int, HEADER_LEN as int)
}

/// The ciphertext‖tag making up the rest of the record.
pub open spec fn record_body(rec: Seq<u8>) -> Seq<u8>
    recommends
        rec.len() >= HEADER_LEN,
{
    rec.subrange(HEADER_LEN as int, rec.len() as int)
}

/// What unsealing a record under a passphrase yields: `None` when the
/// record cannot even hold a salt and a nonce, otherwise the opening of its
/// body under the key re-derived from the passphrase and the stored salt.
pub open spec fn decryption_of(rec: Seq<u8>, pass: Seq<u8>) -> Option<Seq<u8>> {
    if rec.len() < HEADER_LEN {
        None
    } else {
        aes_gcm_open(argon2_key(pass, record_salt(rec)), record_nonce(rec), record_body(rec))
    }
}

/// Relies on `rand::rngs::OsRng::try_fill_bytes` (`rand::TryRngCore`): on
/// success the buffer is filled from the operating system's secure random
/// source; on failure that source was unavailable and the operation must be
/// abandoned. The values are random, so nothing is promised of them.
#[verifier::external_body]
fn fill_from_os_rng(buf: &mut Vec<u8>) -> (r: Result<(), KeystoreError>)
    ensures
        final(buf)@.len() == old(buf)@.len(),
        r is Err ==> r->Err_0 == KeystoreError::RandomSourceFailure,
{
    match rand::rngs::OsRng.try_fill_bytes(buf.as_mut_slice()) {
        Ok(()) => Ok(()),
        Err(_) => Err(KeystoreError::RandomSourceFailure),
    }
}

/// Relies on `argon2::Argon2::hash_password_into` with the crate's default
/// (Argon2id) parameters: the derived key is a function of the passphrase
/// and salt alone, and with a 32-byte salt, a 32-byte output and a
/// passphrase of at most 2^32 - 1 bytes the call's input validation passes
/// and it always succeeds.
#[verifier::external_body]
fn derive_key(pass: &[u8], salt: &[u8]) -> (r: [u8; 32])
    requires
        pass@.len() <= MAX_PASSPHRASE_LEN,
        salt@.len() == SALT_LEN,
    ensures
        r@ == argon2_key(pass@, salt@),
{
    let mut key = [0u8; 32];
    let _ = argon2::Argon2::default().hash_password_into(pass, salt, &mut key);
    key
}

/// Relies on `aes_gcm::Aes256Gcm` through `aead::Aead::encrypt`: for
/// plaintexts within the cipher's length bound encryption always succeeds
/// and returns ciphertext followed by the 16-byte tag, a function of key,
/// nonce and plaintext alone; decrypting that output under the same key and
/// nonce restores the plaintext.
#[verifier::external_body]
fn aead_seal(key: &[u8; 32], nonce: &[u8], msg: &[u8]) -> (r: Vec<u8>)
    requires
        nonce@.len() == NONCE_LEN,
        msg@.len() <= 4096,
    ensures
        r@ == aes_gcm_seal(key@, nonce@, msg@),
        r@.len() == msg@.len() + TAG_LEN,
        aes_gcm_open(key@, nonce@, r@) == Some(msg@),
{
    let cipher = <aes_gcm::Aes256Gcm as aes_gcm::KeyInit>::new(
        aes_gcm::Key::<aes_gcm::Aes256Gcm>::from_slice(key.as_slice()),
    );
    match aes_gcm::aead::Aead::encrypt(&cipher, aes_gcm::Nonce::from_slice(nonce), msg) {
        Ok(ct) => ct,
        Err(_) => Vec::new(),
    }
}

/// Relies on `aes_gcm::Aes256Gcm` through `aead::Aead::decrypt`: opening is
/// a deterministic function of key, nonce and ciphertext; it succeeds
/// exactly when the authentication tag verifies and then returns the
/// plaintext, and rejects otherwise.
#[verifier::external_body]
fn aead_open(key: &[u8; 32], nonce: &[u8], ct: &[u8]) -> (r: Result<Vec<u8>, KeystoreError>)
    requires
        nonce@.len() == NONCE_LEN,
    ensures
        r is Ok <==> aes_gcm_open(key@, nonce@, ct@) is Some,
        r is Ok ==> Some(r.unwrap()@) == aes_gcm_open(key@, nonce@, ct@),
        r is Err ==> r->Err_0 == KeystoreError::AuthenticationFailure,
{
    let cipher = <aes_gcm::Aes256Gcm as aes_gcm::KeyInit>::new(
        aes_gcm::Key::<aes_gcm::Aes256Gcm>::from_slice(key.as_slice()),
    );
    match aes_gcm::aead::Aead::decrypt(&cipher, aes_gcm::Nonce::from_slice(nonce), ct) {
        Ok(pt) => Ok(pt),
        Err(_) => Err(KeystoreError::AuthenticationFailure),
    }
}

/// Seals 32 secret-key bytes under a passphrase.
///
/// A fresh random salt and nonce are drawn for every call; the result is
/// `salt ‖ nonce ‖ ciphertext‖tag`, 92 bytes in all, and unsealing it under
/// the same passphrase restores the secret. The call fails only when the
/// random source is unavailable or the passphrase is too long for the
/// key-derivation function.
pub fn encrypt(msg: &[u8; 32], pass: &[u8]) -> (r: Result<Vec<u8>, KeystoreError>)
    ensures
        r is Ok ==> r.unwrap()@.len() == SALT_LEN + NONCE_LEN + 32 + TAG_LEN,
        r is Ok ==> decryption_of(r.unwrap()@, pass@) == Some(msg@),
        pass@.len() > MAX_PASSPHRASE_LEN <==> r == Err::<Vec<u8>, KeystoreError>(
            KeystoreError::KdfFailure,
        ),
        pass@.len() <= MAX_PASSPHRASE_LEN && r is Err ==> r == Err::<Vec<u8>, KeystoreError>(
            KeystoreError::RandomSourceFailure,
        ),
{
    if pass.len() > MAX_PASSPHRASE_LEN {
        return Err(KeystoreError::KdfFailure);
    }
    let mut salt: Vec<u8> = vec![0u8; SALT_LEN];
    if let Err(e) = fill_from_os_rng(&mut salt) {
        return Err(e);
    }
    let key = derive_key(pass, salt.as_slice());
    let mut nonce: Vec<u8> = vec![0u8; NONCE_LEN];
    if let Err(e) = fill_from_os_rng(&mut nonce) {
        return Err(e);
    }
    let mut body = aead_seal(&key, nonce.as_slice(), msg.as_slice());
    let ghost salt0 = salt@;
    let ghost nonce0 = nonce@;
    let ghost body0 = body@;
    let mut record: Vec<u8> = Vec::new();
    record.append(&mut salt);
    record.append(&mut nonce);
    record.append(&mut body);
    proof {
        assert(record@ == salt0 + nonce0 + body0);
        assert(record_salt(record@) =~= salt0);
        assert(record_nonce(record@) =~= nonce0);
        assert(record_body(record@) =~= body0);
    }
    Ok(record)
}

/// Unseals a record produced by `encrypt`.
///
/// A buffer too short to hold salt and nonce is malformed; otherwise the
/// key is re-derived from the passphrase and the stored salt, and the body
/// is opened under it. A wrong passphrase and a tampered record both fail
/// the integrity check, and are deliberately not told apart.
pub fn decrypt(record: &[u8], pass: &[u8]) -> (r: Result<Vec<u8>, KeystoreError>)
    ensures
        record@.len() < HEADER_LEN ==> r == Err::<Vec<u8>, KeystoreError>(
            KeystoreError::MalformedRecord,
        ),
        record@.len() >= HEADER_LEN && pass@.len() > MAX_PASSPHRASE_LEN ==> r == Err::<
            Vec<u8>,
            KeystoreError,
        >(KeystoreError::KdfFailure),
        record@.len() >= HEADER_LEN && pass@.len() <= MAX_PASSPHRASE_LEN ==> (r is Ok
            <==> decryption_of(record@, pass@) is Some),
        r is Ok ==> Some(r.unwrap()@) == decryption_of(record@, pass@),
        record@.len() >= HEADER_LEN && pass@.len() <= MAX_PASSPHRASE_LEN && r is Err ==> r
            == Err::<Vec<u8>, KeystoreError>(KeystoreError::AuthenticationFailure),
{
    if record.len() < HEADER_LEN {
        return Err(KeystoreError::MalformedRecord);
    }
    if pass.len() > MAX_PASSPHRASE_LEN {
        return Err(KeystoreError::KdfFailure);
    }
    let salt = slice_subrange(record, 0, SALT_LEN);
    let nonce = slice_subrange(record, SALT_LEN, HEADER_LEN);
    let body = slice_subrange(record, HEADER_LEN, record.len());
    let key = derive_key(pass, salt);
    aead_open(&key, nonce, body)
}

} // verus!
