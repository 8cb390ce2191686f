//! Addresses and their derivation from public keys.

use vstd::prelude::*;

use sha3::digest::{ExtendableOutput, Update, XofReader};

use crate::encoding::hex_chars_of;
use crate::encoding::hex_encode;

verus! {

/// The first 32 bytes of SHAKE-256 output on the given input. The extendable
/// output is a pure function of the input alone; this name stands for what
/// the sha3 crate computes.
pub uninterp spec fn shake256_of(input: Seq<u8>) -> Seq<u8>;

/// The address belonging to a compressed public key: the first 32 bytes of
/// SHAKE-256 on its serialization.
pub open spec fn address_of(public_key: Seq<u8>) -> Seq<u8> {
    shake256_of(public_key)
}

/// Relies on `sha3::Shake256` (`ExtendableOutput` and `XofReader::read`):
/// the reader fills the whole 32-byte buffer with the beginning of the
/// extendable output, which depends on the absorbed input alone.
#[verifier::external_body]
fn shake256_32(input: &[u8]) -> (r: [u8; 32])
    ensures
        r@ == shake256_of(input@),
{
    let mut hasher = sha3::Shake256::default();
    hasher.update(input);
    let mut out = [0u8; 32];
    hasher.finalize_xof().read(&mut out);
    out
}

/// A 32-byte account identifier, derived from a public key and nothing else.
#[derive(Clone, Copy, Debug, PartialEq, Eq, Hash)]
pub struct Address {
    bytes: [u8; 32],
}

impl View for Address {
    type V = Seq<u8>;

    closed spec fn view(&self) -> Seq<u8> {
        self.bytes@
    }
}

impl Address {
    /// Derives the address of a compressed public-key serialization by
    /// hashing it and keeping the first 32 bytes. Deterministic: the result
    /// is a function of the key bytes alone.
    pub fn from_public_key(public_key: &[u8; 33]) -> (r: Address)
        ensures
            r@ == address_of(public_key@),
            r@.len() == 32,
    {
        let bytes = shake256_32(public_key.as_slice());
        Address { bytes }
    }

    /// The canonical textual form of the address: 64 lower-case hexadecimal
    /// characters. Used as the keystore filename and as the wire encoding.
    pub fn to_hex(&self) -> (s: String)
        ensures
            s@ == hex_chars_of(self@),
            s@.len() == 64,
    {
        hex_encode(self.bytes.as_slice())
    }
}

/// Address derivation is deterministic: equal public keys always yield equal
/// addresses.
pub proof fn lemma_address_deterministic(k1: Seq<u8>, k2: Seq<u8>)
    ensures
        k1 == k2 ==> address_of(k1) == address_of(k2),
{
}

} // verus!
