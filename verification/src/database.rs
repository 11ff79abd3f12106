//! Signed rules databases: checking the signature of a database file, and
//! signing and framing a payload into one.
use vstd::prelude::*;
use crate::crypto::{
    ed25519_key_decodes, ed25519_public_key, ed25519_public_key_of, ed25519_sign, ed25519_signature,
    ed25519_signature_verifies, ed25519_verify,
};
use crate::error::ConfigError;
use crate::header::{
    database_bytes, database_header, encode_database, lemma_header_roundtrip, parse_header,
    payload_bytes, payload_of, DatabaseHeader, HeaderView,
};

verus! {

/// What a database file `buf` checked against the public key `key` yields:
/// its header when the framing is sound and the signature of the payload
/// verifies, else the reason for refusing it.
pub open spec fn verified_header(key: Seq<u8>, buf: Seq<u8>) -> Result<HeaderView, ConfigError> {
    match database_header(buf) {
        Err(e) => Err(e),
        Ok(h) => if ed25519_key_decodes(key) && ed25519_signature_verifies(
            key,
            payload_bytes(buf, h.payload_len),
            h.signature,
        ) {
            Ok(h)
        } else {
            Err(ConfigError::InvalidSignature)
        },
    }
}

/// Checks the framing of the database file `buffer` and the Ed25519
/// signature of its payload under `public_key`, and returns its header.
pub fn verify_database(public_key: &[u8; 32], buffer: &[u8]) -> (r: Result<
    DatabaseHeader,
    ConfigError,
>)
    ensures
        match r {
            Ok(h) => verified_header(public_key@, buffer@) == Ok::<HeaderView, ConfigError>(h@),
            Err(e) => verified_header(public_key@, buffer@) == Err::<HeaderView, ConfigError>(e),
        },
{
    let header = match parse_header(buffer) {
        Ok(h) => h,
        Err(e) => return Err(e),
    };
    let payload = payload_of(buffer, &header);
    match ed25519_verify(public_key, payload, &header.signature) {
        Ok(()) => Ok(header),
        Err(_) => Err(ConfigError::InvalidSignature),
    }
}

/// The public key that belongs to the secret key `secret`.
pub fn public_key_of(secret: &[u8; 32]) -> (r: [u8; 32])
    ensures
        r@ == ed25519_public_key(secret@),
{
    ed25519_public_key_of(secret)
}

/// A signed database file, with the public key under which it verifies.
pub struct SignedDatabase {
    /// The public key of the secret key that signed the payload.
    pub public_key: [u8; 32],
    /// The framed database file.
    pub file: Vec<u8>,
}

/// Signs `payload` with `secret` and frames it, with `version` and
/// `epoch_timestamp`, as a database file. When the payload length fits in
/// the 32-bit length field, the file is accepted under the returned public
/// key and its header gives back the signature, version, release time and
/// payload length it was made with.
pub fn sign_database(secret: &[u8; 32], version: u32, epoch_timestamp: u64, payload: &[u8]) -> (r:
    SignedDatabase)
    ensures
        r.public_key@ == ed25519_public_key(secret@),
        r.file@ == database_bytes(
            ed25519_signature(secret@, payload@),
            version,
            epoch_timestamp,
            payload@,
        ),
        payload@.len() <= u32::MAX ==> verified_header(r.public_key@, r.file@) == Ok::<
            HeaderView,
            ConfigError,
        >(
            HeaderView {
                signature: ed25519_signature(secret@, payload@),
                version,
                epoch_timestamp,
                payload_len: payload@.len() as u32,
            },
        ),
{
    let public_key = ed25519_public_key_of(secret);
    let signature = ed25519_sign(secret, payload);
    proof {
        if payload@.len() <= u32::MAX {
            lemma_header_roundtrip(signature@, version, epoch_timestamp, payload@);
        }
    }
    let file = encode_database(&signature, version, epoch_timestamp, payload);
    SignedDatabase { public_key, file }
}

} // verus!
