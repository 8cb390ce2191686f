//! Accounts: a fresh secret key together with its derived address.

use vstd::prelude::*;

use crate::address::Address;
use crate::address::address_of;
use crate::errors::KeystoreError;
use crate::keycrypt::MAX_PASSPHRASE_LEN;
use crate::keycrypt::NONCE_LEN;
use crate::keycrypt::SALT_LEN;
use crate::keycrypt::TAG_LEN;
use crate::keycrypt::decryption_of;
use crate::keycrypt::encrypt;

verus! {

/// The compressed serialization of the public key belonging to a secret
/// key, as secp256k1 computes it: a 33-byte string that is a function of
/// the secret key alone. This name stands for what the secp256k1 crate
/// computes.
pub uninterp spec fn secp_public_of(secret: Seq<u8>) -> Seq<u8>;

/// Relies on `secp256k1::generate_keypair` with the thread-local secure
/// generator `rand::rng()`, on `SecretKey::secret_bytes` and on
/// `PublicKey::serialize`: the pair is a freshly sampled valid secret key
/// and the compressed serialization of its public counterpart, which is a
/// function of the secret key alone. The generator aborts rather than fall
/// back to a weaker source if the operating system's random source is
/// unavailable. The secret key is random, so nothing is promised of its
/// value.
#[verifier::external_body]
fn generate_keypair_bytes() -> (r: ([u8; 32], [u8; 33]))
    ensures
        r.1@ == secp_public_of(r.0@),
{
    let (sk, pk) = secp256k1::generate_keypair(&mut secp256k1::rand::rng());
    (sk.secret_bytes(), pk.serialize())
}

/// An account holds its address and the matching secret key: the address is
/// always the one derived from the secret key's public counterpart.
pub open spec fn account_wf(a: Account) -> bool {
    a.addr@ == address_of(secp_public_of(a.prv@))
}

/// A freshly generated account. It exists only to be sealed and persisted:
/// the secret key never leaves process memory unencrypted.
#[derive(Debug)]
pub struct Account {
    /// The 32-byte secret scalar.
    pub prv: [u8; 32],
    /// The address derived from the matching public key.
    pub addr: Address,
}

impl Account {
    /// Generates a fresh keypair from the secure random source and derives
    /// the account's address from its public key.
    pub fn new() -> (r: Account)
        ensures
            account_wf(r),
    {
        let (secret, public) = generate_keypair_bytes();
        let addr = Address::from_public_key(&public);
        Account { prv: secret, addr }
    }

    /// Seals this account's secret key under a passphrase. Unsealing the
    /// record under the same passphrase restores exactly the secret key.
    pub fn to_record(&self, pass: &[u8]) -> (r: Result<Vec<u8>, KeystoreError>)
        ensures
            r is Ok ==> r.unwrap()@.len() == SALT_LEN + NONCE_LEN + 32 + TAG_LEN,
            r is Ok ==> decryption_of(r.unwrap()@, pass@) == Some(self.prv@),
            pass@.len() > MAX_PASSPHRASE_LEN <==> r == Err::<Vec<u8>, KeystoreError>(
                KeystoreError::KdfFailure,
            ),
            pass@.len() <= MAX_PASSPHRASE_LEN && r is Err ==> r == Err::<Vec<u8>, KeystoreError>(
                KeystoreError::RandomSourceFailure,
            ),
    {
        encrypt(&self.prv, pass)
    }
}

} // verus!
