//! The failure taxonomy of the keystore.

use vstd::prelude::*;

verus! {

/// Everything that can go wrong while creating, sealing or unsealing an
/// account record.
///
/// - `RandomSourceFailure`: the operating system's secure random source was
///   unavailable. Fatal for the call; never replaced by a weaker source.
/// - `KdfFailure`: the key-derivation step rejected its parameters.
/// - `AuthenticationFailure`: an encrypted record failed its integrity check,
///   because the passphrase was wrong or the record was tampered with. The
///   two causes are deliberately not told apart.
/// - `MalformedRecord`: an encrypted record is too short to even hold its
///   salt and nonce.
/// - `StorageFailure`: a filesystem error while persisting a record; raised
///   only by callers that do the writing, never by this library's own logic.
#[derive(Clone, Copy, Debug, PartialEq, Eq)]
pub enum KeystoreError {
    RandomSourceFailure,
    KdfFailure,
    AuthenticationFailure,
    MalformedRecord,
    StorageFailure,
}

} // verus!
