//! Keys and signatures of ed25519.
use ed25519_dalek::{Signer, Verifier};
use vstd::prelude::*;

use crate::types::{Error, PublicKey, SecretKey, Signature};

verus! {

/// The public key of a secret key: what `PublicKey::from` of the crate ed25519_dalek makes of it.
pub uninterp spec fn ed25519_public_key(secret: Seq<u8>) -> Seq<u8>;

/// Whether bytes are the encoding of a point: what `PublicKey::from_bytes` of the crate
/// ed25519_dalek says of them.
pub uninterp spec fn ed25519_is_public_key(bytes: Seq<u8>) -> bool;

/// The signature under a secret key on a message: what `Keypair::sign` of the crate
/// ed25519_dalek makes with the key and its public key.
pub uninterp spec fn ed25519_signature(secret: Seq<u8>, message: Seq<u8>) -> Seq<u8>;

/// Whether a signature on a message holds under a public key: what `PublicKey::verify` of the
/// crate ed25519_dalek says of them. It does not where the key or the signature is no encoding
/// of one.
pub uninterp spec fn ed25519_accepts(
    public_key: Seq<u8>,
    message: Seq<u8>,
    signature: Seq<u8>,
) -> bool;

/// `PublicKey::from` of the crate ed25519_dalek, on the secret key that
/// `SecretKey::from_bytes` makes of the bytes, which it does of any thirty-two. The result is
/// named, and is the encoding of a point.
#[verifier::external_body]
fn dalek_public_key(secret: &[u8]) -> (result: Result<[u8; 32], String>)
    ensures
        result is Ok <==> secret@.len() == 32,
        result matches Ok(key) ==> key@ == ed25519_public_key(secret@),
        result matches Ok(key) ==> ed25519_is_public_key(key@),
{
    match ed25519_dalek::SecretKey::from_bytes(secret) {
        Ok(secret) => Ok(ed25519_dalek::PublicKey::from(&secret).to_bytes()),
        Err(e) => Err(format!("{}", e)),
    }
}

/// `PublicKey::from_bytes` of the crate ed25519_dalek. Whether it succeeds is named; the key
/// that it makes keeps the bytes.
#[verifier::external_body]
fn dalek_public_key_from_bytes(bytes: &[u8]) -> (key: Option<[u8; 32]>)
    ensures
        key is Some <==> ed25519_is_public_key(bytes@),
        key matches Some(k) ==> k@ == bytes@,
{
    match ed25519_dalek::PublicKey::from_bytes(bytes) {
        Ok(key) => Some(key.to_bytes()),
        Err(_) => None,
    }
}

/// `Keypair::sign` of the crate ed25519_dalek, on the key pair of the secret key that
/// `SecretKey::from_bytes` makes of the bytes, which it does of any thirty-two. The result is
/// named, and holds under the public key of the pair.
#[verifier::external_body]
fn dalek_sign(secret: &[u8], message: &[u8]) -> (result: Result<[u8; 64], String>)
    ensures
        result is Ok <==> secret@.len() == 32,
        result matches Ok(signature) ==> signature@ == ed25519_signature(secret@, message@),
        result matches Ok(signature) ==> ed25519_accepts(
            ed25519_public_key(secret@),
            message@,
            signature@,
        ),
{
    match ed25519_dalek::SecretKey::from_bytes(secret) {
        Ok(secret) => {
            let public = ed25519_dalek::PublicKey::from(&secret);
            let keypair = ed25519_dalek::Keypair { public, secret };
            Ok(keypair.sign(message).to_bytes())
        },
        Err(e) => Err(format!("{}", e)),
    }
}

/// `PublicKey::verify` of the crate ed25519_dalek, on the key and the signature that
/// `PublicKey::from_bytes` and `Signature::from_bytes` make of the bytes. The result is named.
#[verifier::external_body]
fn dalek_verify(public_key: &[u8; 32], message: &[u8], signature: &[u8; 64]) -> (accepted: bool)
    ensures
        accepted == ed25519_accepts(public_key@, message@, signature@),
{
    let key = ed25519_dalek::PublicKey::from_bytes(public_key);
    let signature = ed25519_dalek::Signature::from_bytes(signature);
    match (key, signature) {
        (Ok(key), Ok(signature)) => key.verify(message, &signature).is_ok(),
        _ => false,
    }
}

impl PublicKey {
    /// The public key with the given encoding, if the bytes encode a point.
    pub fn from_bytes(bytes: &[u8; 32]) -> (key: Option<PublicKey>)
        ensures
            key is Some <==> ed25519_is_public_key(bytes@),
            key matches Some(k) ==> k@ == bytes@,
    {
        match dalek_public_key_from_bytes(bytes) {
            Some(bytes) => Some(PublicKey { bytes }),
            None => None,
        }
    }

    /// Whether a signature on a message was made with the secret key of this public key.
    pub fn verify(&self, message: &[u8], signature: &Signature) -> (accepted: bool)
        ensures
            accepted == ed25519_accepts(self@, message@, signature@),
    {
        dalek_verify(&self.bytes, message, &signature.bytes)
    }
}

/// The ed25519 key pair that has a wallet key as its secret key.
pub fn ed25519_keypair(sec_key: &SecretKey) -> (result: Result<(SecretKey, PublicKey), Error>)
    ensures
        result is Ok,
        result->Ok_0.0 == *sec_key,
        result->Ok_0.1@ == ed25519_public_key(sec_key@),
        ed25519_is_public_key(result->Ok_0.1@),
{
    match dalek_public_key(&sec_key.bytes) {
        Ok(bytes) => Ok((*sec_key, PublicKey { bytes })),
        Err(e) => Err(Error::ED25519Key(e)),
    }
}

/// Signs a message with a wallet key. The signature holds under the public key of its pair.
pub fn ed25519_sign(sec_key: &SecretKey, message: &[u8]) -> (result: Result<Signature, Error>)
    ensures
        result is Ok,
        result->Ok_0@ == ed25519_signature(sec_key@, message@),
        ed25519_accepts(ed25519_public_key(sec_key@), message@, result->Ok_0@),
{
    match dalek_sign(&sec_key.bytes, message) {
        Ok(bytes) => Ok(Signature { bytes }),
        Err(e) => Err(Error::ED25519Key(e)),
    }
}

} // verus!
