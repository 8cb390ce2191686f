//! The account-creation service: everything of `create_account` that does
//! not touch the filesystem.

use vstd::prelude::*;

use crate::account::Account;
use crate::account::secp_public_of;
use crate::address::Address;
use crate::address::address_of;
use crate::errors::KeystoreError;
use crate::keycrypt::MAX_PASSPHRASE_LEN;
use crate::keycrypt::NONCE_LEN;
use crate::keycrypt::SALT_LEN;
use crate::keycrypt::TAG_LEN;
use crate::keycrypt::decryption_of;

verus! {

/// Creates the material of one fresh account: generates a keypair, derives
/// the address, and seals the secret key under the passphrase. The caller
/// persists the record under the address's textual encoding and returns
/// that encoding; the secret key itself is dropped here and survives only
/// inside the sealed record.
pub fn create_account_material(pass: &[u8]) -> (r: Result<(Address, Vec<u8>), KeystoreError>)
    ensures
        r is Ok ==> ({
            let addr = r.unwrap().0;
            let record = r.unwrap().1;
            &&& record@.len() == SALT_LEN + NONCE_LEN + 32 + TAG_LEN
            &&& decryption_of(record@, pass@) is Some
            &&& decryption_of(record@, pass@).unwrap().len() == 32
            &&& addr@ == address_of(secp_public_of(decryption_of(record@, pass@).unwrap()))
        }),
        pass@.len() > MAX_PASSPHRASE_LEN <==> r == Err::<(Address, Vec<u8>), KeystoreError>(
            KeystoreError::KdfFailure,
        ),
        pass@.len() <= MAX_PASSPHRASE_LEN && r is Err ==> r == Err::<
            (Address, Vec<u8>),
            KeystoreError,
        >(KeystoreError::RandomSourceFailure),
{
    let account = Account::new();
    let record = match account.to_record(pass) {
        Ok(rec) => rec,
        Err(e) => {
            return Err(e);
        },
    };
    Ok((account.addr, record))
}

} // verus!
