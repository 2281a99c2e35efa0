//! Ed25519 signatures.

use ed25519_dalek::{Signer, Verifier};
use vstd::prelude::*;

verus! {

/// The signature that `ed25519_dalek` makes with the secret key `seed`.
pub uninterp spec fn ed25519_signature(seed: Seq<u8>, message: Seq<u8>) -> Seq<u8>;

/// The public key that `ed25519_dalek` derives from the secret key `seed`.
pub uninterp spec fn ed25519_public_key(seed: Seq<u8>) -> Seq<u8>;

/// Whether `ed25519_dalek` accepts a signature.
pub uninterp spec fn ed25519_verifies(
    public_key: Seq<u8>,
    message: Seq<u8>,
    signature: Seq<u8>,
) -> bool;

/// What `ed25519_dalek` says of a signature that it does not accept.
pub uninterp spec fn ed25519_refusal(
    public_key: Seq<u8>,
    message: Seq<u8>,
    signature: Seq<u8>,
) -> Seq<char>;

/// `ed25519_dalek::SigningKey::sign`, which draws no random number: the same key and message
/// give the same signature.
#[verifier::external_body]
pub(crate) fn sign(seed: &[u8; 32], message: &[u8]) -> (r: [u8; 64])
    ensures
        r@ == ed25519_signature(seed@, message@),
{
    ed25519_dalek::SigningKey::from_bytes(seed).sign(message).to_bytes()
}

/// `ed25519_dalek::SigningKey::verifying_key`: the public half of a key.
#[verifier::external_body]
pub(crate) fn public_key(seed: &[u8; 32]) -> (r: [u8; 32])
    ensures
        r@ == ed25519_public_key(seed@),
{
    ed25519_dalek::SigningKey::from_bytes(seed).verifying_key().to_bytes()
}

/// `ed25519_dalek::VerifyingKey::verify`, with the public half of some key. A signature that is
/// not accepted is told of with the error behind it, where there is one. (The bytes of a public
/// half always are a key, so `VerifyingKey::from_bytes` only converts them.)
#[verifier::external_body]
pub(crate) fn verify(public_key: &[u8; 32], message: &[u8], signature: &[u8; 64]) -> (r: Result<
    (),
    String,
>)
    requires
        exists|seed: Seq<u8>|
            seed.len() == 32 && public_key@ == #[trigger] ed25519_public_key(seed),
    ensures
        r is Ok <==> ed25519_verifies(public_key@, message@, signature@),
        r matches Err(e) ==> e@ == ed25519_refusal(public_key@, message@, signature@),
{
    let key = match ed25519_dalek::VerifyingKey::from_bytes(public_key) {
        Ok(key) => key,
        Err(e) => return Err(e.to_string()),
    };
    match key.verify(message, &ed25519_dalek::Signature::from_bytes(signature)) {
        Ok(()) => Ok(()),
        Err(e) => match std::error::Error::source(&e) {
            Some(behind) => Err(format!("{e}: {behind}")),
            None => Err(e.to_string()),
        },
    }
}

} // verus!
