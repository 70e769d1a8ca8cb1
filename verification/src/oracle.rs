//! The signature oracle: standard Ed25519 verification, treated as an
//! opaque yes/no answer that depends on the public key, the message bytes,
//! and the signature alone.

use vstd::prelude::*;

use crate::public_types::U256;
use crate::public_types::U512;

verus! {

/// Whether standard Ed25519 verification accepts `signature` on `message`
/// under `public_key`.  A pure function of the three byte strings: the
/// outcome is the same in every process and on every machine.
pub uninterp spec fn ed25519_accepts(public_key: Seq<u8>, message: Seq<u8>, signature: Seq<u8>) -> bool;

/// Relies on `ed25519_dalek::VerifyingKey::from_bytes` and
/// `ed25519_dalek::VerifyingKey::verify_strict`: together they decide, from
/// the key, message, and signature bytes alone, whether the signature is
/// valid, rejecting keys that do not decode to a curve point.
#[verifier::external_body]
pub fn verify_sig_ed25519(public_key: &U256, message: &Vec<u8>, signature: &U512) -> (r: bool)
    ensures
        r == ed25519_accepts(public_key@, message@, signature@),
{
    match ed25519_dalek::VerifyingKey::from_bytes(&public_key.bytes) {
        Ok(vk) => {
            let sig = ed25519_dalek::Signature::from_bytes(&signature.bytes);
            vk.verify_strict(message.as_slice(), &sig).is_ok()
        },
        Err(_) => false,
    }
}

} // verus!
