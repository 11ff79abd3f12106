//! Ed25519 signing and verification of rules payloads, through `ed25519_dalek`.
use vstd::prelude::*;
use ed25519_dalek::{Signer, Verifier};

verus! {

#[verifier::external_type_specification]
#[verifier::external_body]
pub struct ExSignatureError(ed25519_dalek::SignatureError);

/// Whether `ed25519_dalek::VerifyingKey::from_bytes` accepts `key`, that is,
/// whether the 32 bytes decompress to a point of the curve.
pub uninterp spec fn ed25519_key_decodes(key: Seq<u8>) -> bool;

/// Whether `ed25519_dalek`'s `Verifier::verify`, with the key decoded from
/// `key`, accepts `signature` as a signature of `message`.
pub uninterp spec fn ed25519_signature_verifies(
    key: Seq<u8>,
    message: Seq<u8>,
    signature: Seq<u8>,
) -> bool;

/// The public key that `ed25519_dalek` derives from the secret key `secret`.
pub uninterp spec fn ed25519_public_key(secret: Seq<u8>) -> Seq<u8>;

/// The signature that `ed25519_dalek`'s `Signer::sign` makes of `message`
/// with the secret key `secret`.
pub uninterp spec fn ed25519_signature(secret: Seq<u8>, message: Seq<u8>) -> Seq<u8>;

/// Verifies an Ed25519 signature with `ed25519_dalek`: decodes the public
/// key with `VerifyingKey::from_bytes` and the signature with
/// `Signature::from_bytes`, then calls `Verifier::verify`.
/// Trusted: succeeds exactly when the key decodes and the signature
/// verifies; both are named, not spelled out.
#[verifier::external_body]
pub(crate) fn ed25519_verify(
    public_key: &[u8; 32],
    message: &[u8],
    signature: &[u8; 64],
) -> (r: Result<(), ed25519_dalek::SignatureError>)
    ensures
        r.is_ok() == (ed25519_key_decodes(public_key@) && ed25519_signature_verifies(
            public_key@,
            message@,
            signature@,
        )),
{
    let key = ed25519_dalek::VerifyingKey::from_bytes(public_key)?;
    key.verify(message, &ed25519_dalek::Signature::from_bytes(signature))
}

/// The public key of the secret key `secret`, through
/// `SigningKey::from_bytes`, `SigningKey::verifying_key` and
/// `VerifyingKey::to_bytes`.
/// Trusted: the result is the named public key, and it decodes.
#[verifier::external_body]
pub(crate) fn ed25519_public_key_of(secret: &[u8; 32]) -> (r: [u8; 32])
    ensures
        r@ == ed25519_public_key(secret@),
        ed25519_key_decodes(r@),
{
    ed25519_dalek::SigningKey::from_bytes(secret).verifying_key().to_bytes()
}

/// Signs `message` with the secret key `secret`, through
/// `SigningKey::from_bytes`, `Signer::sign` and `Signature::to_bytes`.
/// Trusted: the result is the named signature, and it verifies against
/// the public key of `secret` (Ed25519 signatures made by a key verify
/// under that key).
#[verifier::external_body]
pub(crate) fn ed25519_sign(secret: &[u8; 32], message: &[u8]) -> (r: [u8; 64])
    ensures
        r@ == ed25519_signature(secret@, message@),
        ed25519_signature_verifies(ed25519_public_key(secret@), message@, r@),
{
    ed25519_dalek::SigningKey::from_bytes(secret).sign(message).to_bytes()
}

} // verus!
