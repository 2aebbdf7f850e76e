//! Ed25519 keys and signatures, computed by the `ed25519-dalek` crate.
use ed25519_dalek::Signer;
use ed25519_dalek::Verifier;
use vstd::prelude::*;

verus! {

#[verifier::external_type_specification]
#[verifier::external_body]
pub struct ExVerifyingKey(ed25519_dalek::VerifyingKey);

/// Whether 32 bytes are the compressed form of a curve point (`VerifyingKey::from_bytes` succeeds).
pub uninterp spec fn ed25519_key_valid(public: Seq<u8>) -> bool;

/// Whether `sig` is a valid signature of `msg` under the public key `public`
/// (`Verifier::verify` of `VerifyingKey`).
pub uninterp spec fn ed25519_verify(public: Seq<u8>, msg: Seq<u8>, sig: Seq<u8>) -> bool;

/// The public key of a 32-byte secret key (`SigningKey::verifying_key`).
pub uninterp spec fn ed25519_public(secret: Seq<u8>) -> Seq<u8>;

/// The signature of `msg` under a 32-byte secret key (`Signer::sign` of `SigningKey`).
pub uninterp spec fn ed25519_sign(secret: Seq<u8>, msg: Seq<u8>) -> Seq<u8>;

/// A decoded Ed25519 public key together with its 32 bytes.
pub struct PublicKey {
    bytes: [u8; 32],
    key: ed25519_dalek::VerifyingKey,
}

impl PublicKey {
    /// The 32 bytes the key was decoded from.
    pub closed spec fn bytes_view(&self) -> Seq<u8> {
        self.bytes@
    }
}

/// `VerifyingKey::from_bytes`: decodes when the bytes are a valid compressed point; the
/// error carries the crate's description.
#[verifier::external_body]
pub(crate) fn public_key_from_bytes(bytes: &[u8; 32]) -> (r: Result<PublicKey, String>)
    ensures
        r is Ok <==> ed25519_key_valid(bytes@),
        r matches Ok(k) ==> k.bytes_view() == bytes@,
{
    match ed25519_dalek::VerifyingKey::from_bytes(bytes) {
        Ok(key) => Ok(PublicKey { bytes: *bytes, key }),
        Err(e) => Err(e.to_string()),
    }
}

/// `Verifier::verify` of `VerifyingKey` on a 64-byte signature (`Signature::from_bytes`);
/// the error carries the crate's description.
#[verifier::external_body]
pub(crate) fn verify_with_key(key: &PublicKey, msg: &[u8], sig: &[u8; 64]) -> (r: Result<(), String>)
    ensures
        r is Ok <==> ed25519_verify(key.bytes_view(), msg@, sig@),
{
    let signature = ed25519_dalek::Signature::from_bytes(sig);
    key.key.verify(msg, &signature).map_err(|e| e.to_string())
}

/// A fresh random secret key (`SigningKey::generate` with the operating system's generator).
#[verifier::external_body]
pub(crate) fn random_secret_key() -> (r: [u8; 32]) {
    let mut rng = rand::rngs::OsRng;
    ed25519_dalek::SigningKey::generate(&mut rng).to_bytes()
}

/// The public key of a secret key (`SigningKey::verifying_key`); it always decodes.
#[verifier::external_body]
pub(crate) fn public_key_of(secret: &[u8; 32]) -> (r: [u8; 32])
    ensures
        r@ == ed25519_public(secret@),
        ed25519_key_valid(r@),
{
    ed25519_dalek::SigningKey::from_bytes(secret).verifying_key().to_bytes()
}

/// Ed25519 signature of `msg` (`Signer::sign` of `SigningKey`): 64 bytes that verify under
/// the secret key's public key.
#[verifier::external_body]
pub(crate) fn sign_with(secret: &[u8; 32], msg: &[u8]) -> (r: Vec<u8>)
    ensures
        r@ == ed25519_sign(secret@, msg@),
        r@.len() == 64,
        ed25519_verify(ed25519_public(secret@), msg@, r@),
{
    ed25519_dalek::SigningKey::from_bytes(secret).sign(msg).to_bytes().to_vec()
}

} // verus!
