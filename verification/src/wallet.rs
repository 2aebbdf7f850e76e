//! Keys and signatures: a wallet's address (`0x` + hex of its public key), signing of
//! transactions and delegation proofs, and verification of signed transactions.
use crate::crypto::{
    ed25519_key_valid, ed25519_public, ed25519_sign, ed25519_verify, public_key_from_bytes,
    public_key_of, random_secret_key, sign_with, verify_with_key,
};
use crate::encoding::{
    hex_bytes, hex_decode, hex_encode, hex_text, lemma_hex_roundtrip, skip_chars,
    starts_with_chars, to_array32, to_array64,
};
use crate::error::{outcome, Error, ErrorKind, Result};
use crate::text::{concat2, owned};
use crate::tx::delegation::{
    build_signed_proof, chain_address, delegation_claims_to_sign, enc_claims, enc_signed_proof,
    hex_prefix, DelegationProofMinimal,
};
use crate::tx::encode::signing_bytes;
use crate::tx::transaction::{
    effective_version, is_delegated_consume_view, opt_bytes, SignedTx, SignedTxView,
    Transaction, PAYLOAD_VERSION_V2,
};
use crate::state::settlement::opt_str;
use vstd::prelude::*;
use vstd::string::*;
use vstd::utf8::*;

verus! {

broadcast use vstd::string::group_string_axioms;

/// A key pair: the address is `0x` and the hex of the public key; the secret key stays
/// inside.
pub struct Wallet {
    pub address: String,
    secret: [u8; 32],
    public: [u8; 32],
}

impl Wallet {
    /// The secret key.
    pub closed spec fn secret_view(&self) -> Seq<u8> {
        self.secret@
    }

    /// The public key.
    pub closed spec fn public_view(&self) -> Seq<u8> {
        self.public@
    }

    /// The address.
    pub closed spec fn address_view(&self) -> Seq<char> {
        self.address@
    }

    /// The public key is the secret key's and the address is the public key's.
    pub open spec fn wf(&self) -> bool {
        &&& self.public_view() == ed25519_public(self.secret_view())
        &&& ed25519_key_valid(self.public_view())
        &&& self.address_view() == chain_address(self.public_view())
    }

    /// A wallet with a fresh random key.
    pub fn new_random() -> (w: Wallet)
        ensures
            w.wf(),
    {
        let secret = random_secret_key();
        Wallet::from_secret_key(secret)
    }

    /// The wallet of a secret key.
    pub fn from_secret_key(secret: [u8; 32]) -> (w: Wallet)
        ensures
            w.wf(),
            w.secret_view() == secret@,
    {
        let public = public_key_of(&secret);
        let address = public_key_to_address(&public);
        Wallet { address, secret, public }
    }

    pub fn address(&self) -> (r: &str)
        ensures
            r@ == self.address_view(),
    {
        self.address.as_str()
    }

    /// The 32-byte public key.
    pub fn public_key_bytes(&self) -> (r: [u8; 32])
        ensures
            r@ == self.public_view(),
    {
        self.public
    }

    /// The 32-byte secret key.
    pub fn secret_key_bytes(&self) -> (r: [u8; 32])
        ensures
            r@ == self.secret_view(),
    {
        self.secret
    }

    /// Ed25519 signature (64 bytes) of `message`; it verifies under the wallet's public key.
    pub fn sign_bytes(&self, message: &[u8]) -> (r: Vec<u8>)
        ensures
            r@ == ed25519_sign(self.secret_view(), message@),
            r@.len() == 64,
            self.wf() ==> ed25519_verify(self.public_view(), message@, r@),
    {
        sign_with(&self.secret, message)
    }

    /// A v1 transaction from this wallet, signed over its payload.
    pub fn sign_transaction(&self, nonce: u64, kind: Transaction) -> (r: Result<SignedTx>)
        ensures
            r matches Ok(t) && t@ == signed_view(self.secret_view(), unsigned_view(self.address_view(), nonce, kind@)),
            r matches Ok(t) ==> (self.wf() && !delegated_v1(t@) ==> signature_error(t@) is None),
    {
        let tx = SignedTx::new(self.address.clone(), nonce, kind);
        let message = tx.message_to_sign()?;
        let signature = self.sign_bytes(message.as_slice());
        proof {
            if self.wf() && !delegated_v1(tx@) {
                lemma_signed_by_key_verifies(self.secret_view(), tx@);
            }
        }
        Ok(SignedTx { signature: Some(signature), ..tx })
    }

    /// Signed delegation proof bytes: the claims and this (owner) wallet's signature over them.
    pub fn sign_delegation_proof(&self, claims: &DelegationProofMinimal) -> (r: Vec<u8>)
        ensures
            r@ == enc_signed_proof(claims@, ed25519_sign(self.secret_view(), enc_claims(claims@))),
    {
        let message = delegation_claims_to_sign(claims);
        let signature = self.sign_bytes(message.as_slice());
        build_signed_proof(claims, signature)
    }

    /// A v2 transaction for a delegated consumption: this wallet signs as delegate, with the
    /// owner as nonce account, the reference time and the proof.
    pub fn sign_transaction_v2(
        &self,
        nonce: u64,
        nonce_account: String,
        valid_at: u64,
        delegation_proof: Vec<u8>,
        kind: Transaction,
    ) -> (r: Result<SignedTx>)
        ensures
            r matches Ok(t) && t@ == signed_view(
                self.secret_view(),
                SignedTxView {
                    payload_version: Some(PAYLOAD_VERSION_V2),
                    signer: self.address_view(),
                    nonce,
                    nonce_account: Some(nonce_account@),
                    valid_at: Some(valid_at),
                    delegation_proof: Some(delegation_proof@),
                    kind: kind@,
                    signature: None,
                },
            ),
            r matches Ok(t) ==> (self.wf() ==> signature_error(t@) is None),
    {
        let tx = SignedTx {
            payload_version: Some(PAYLOAD_VERSION_V2),
            signer: self.address.clone(),
            nonce,
            nonce_account: Some(nonce_account),
            valid_at: Some(valid_at),
            delegation_proof: Some(delegation_proof),
            kind,
            signature: None,
        };
        let message = tx.message_to_sign()?;
        let signature = self.sign_bytes(message.as_slice());
        proof {
            if self.wf() {
                lemma_signed_by_key_verifies(self.secret_view(), tx@);
            }
        }
        Ok(SignedTx { signature: Some(signature), ..tx })
    }
}

/// An unsigned v1 transaction.
pub open spec fn unsigned_view(signer: Seq<char>, nonce: u64, kind: crate::tx::transaction::TransactionView) -> SignedTxView {
    SignedTxView {
        payload_version: None,
        signer,
        nonce,
        nonce_account: None,
        valid_at: None,
        delegation_proof: None,
        kind,
        signature: None,
    }
}

/// `t` with the signature of the secret key over its signing bytes.
pub open spec fn signed_view(secret: Seq<u8>, t: SignedTxView) -> SignedTxView {
    SignedTxView { signature: Some(ed25519_sign(secret, signing_bytes(t))), ..t }
}

/// `0x` and the lowercase hex of a public key.
pub fn public_key_to_address(pubkey: &[u8]) -> (r: String)
    ensures
        r@ == chain_address(pubkey@),
{
    let h = hex_encode(pubkey);
    proof {
        reveal_strlit("0x");
        assert("0x"@ =~= hex_prefix());
    }
    concat2("0x", h.as_str())
}

/// The 32-byte key an address names: hex digits (after an optional `0x`) of 32 bytes.
pub open spec fn address_key(a: Seq<char>) -> Option<Seq<u8>> {
    let rest = if hex_prefix().is_prefix_of(a) {
        a.skip(2)
    } else {
        a
    };
    match hex_bytes(encode_utf8(rest)) {
        Some(k) => if k.len() == 32 {
            Some(k)
        } else {
            None
        },
        None => None,
    }
}

/// The public key of an address, if it is the hex of 32 bytes (with or without `0x`).
pub fn address_to_public_key(address: &str) -> (r: Option<[u8; 32]>)
    ensures
        match address_key(address@) {
            Some(k) => r matches Some(a) && a@ == k,
            None => r is None,
        },
{
    proof {
        reveal_strlit("0x");
        assert("0x"@ =~= hex_prefix());
    }
    let hex_part = if starts_with_chars(address, "0x") {
        skip_chars(address, 2)
    } else {
        address
    };
    let bytes = match hex_decode(hex_part) {
        Ok(b) => b,
        Err(_) => {
            return None;
        },
    };
    if bytes.len() != 32 {
        return None;
    }
    Some(to_array32(&bytes))
}

/// A delegated consumption that is not payload version 2.
pub open spec fn delegated_v1(t: SignedTxView) -> bool {
    is_delegated_consume_view(t) && effective_version(t) != PAYLOAD_VERSION_V2
}

/// Delegated consumption must use payload version 2.
pub fn enforce_delegated_consume_v2(tx: &SignedTx) -> (r: Result<()>)
    ensures
        outcome(r, if delegated_v1(tx@) { Some(ErrorKind::DelegatedConsumeRequiresV2) } else { None }),
{
    if tx.is_delegated_consume() {
        if tx.effective_payload_version() != PAYLOAD_VERSION_V2 {
            return Err(Error::DelegatedConsumeRequiresV2);
        }
    }
    Ok(())
}

/// The transaction carries a 64-byte Ed25519 signature, over its signing bytes, by the key its
/// signer address names.
pub open spec fn signature_valid(t: SignedTxView) -> bool {
    &&& t.signature is Some
    &&& address_key(t.signer) is Some
    &&& t.signature->0.len() == 64
    &&& ed25519_key_valid(address_key(t.signer)->0)
    &&& ed25519_verify(address_key(t.signer)->0, signing_bytes(t), t.signature->0)
}

/// What signature verification reports.
pub open spec fn signature_error(t: SignedTxView) -> Option<ErrorKind> {
    if delegated_v1(t) {
        Some(ErrorKind::DelegatedConsumeRequiresV2)
    } else if !signature_valid(t) {
        Some(ErrorKind::SignatureVerification)
    } else {
        None
    }
}

/// Admission of a submitted transaction: a signed one must verify; an unsigned one is taken
/// only when unsigned submission is allowed or its signer is trusted.
pub fn admit_submission(tx: &SignedTx, allow_unsigned: bool, trusted_signer: bool) -> (r: Result<()>)
    ensures
        tx.signature is Some ==> outcome(r, signature_error(tx@)),
        tx.signature is None ==> outcome(
            r,
            if allow_unsigned || trusted_signer {
                None
            } else {
                Some(ErrorKind::SignatureVerification)
            },
        ),
        tx.signature is None && !allow_unsigned && !trusted_signer ==> (r matches Err(
            Error::SignatureVerification(m),
        ) && m@ == "Unsigned tx rejected (use --allow-unsigned for legacy apply)"@),
{
    if tx.signature.is_some() {
        verify_signature(tx)
    } else if allow_unsigned || trusted_signer {
        Ok(())
    } else {
        Err(Error::SignatureVerification(owned("Unsigned tx rejected (use --allow-unsigned for legacy apply)")))
    }
}

/// Verify a signed transaction: the delegated-consumption version gate, then a valid
/// signature by the signer's key over the version's payload.
pub fn verify_signature(tx: &SignedTx) -> (r: Result<()>)
    ensures
        outcome(r, signature_error(tx@)),
{
    enforce_delegated_consume_v2(tx)?;
    let sig_bytes = match &tx.signature {
        Some(s) => s,
        None => {
            return Err(Error::SignatureVerification(owned("Signed transaction required (Phase 2)")));
        },
    };
    let pubkey_bytes = match address_to_public_key(tx.signer.as_str()) {
        Some(k) => k,
        None => {
            return Err(
                Error::SignatureVerification(
                    concat2("Invalid address format (expected hex pubkey): ", tx.signer.as_str()),
                ),
            );
        },
    };
    let message = tx.message_to_sign()?;
    let verifying_key = match public_key_from_bytes(&pubkey_bytes) {
        Ok(k) => k,
        Err(e) => {
            return Err(Error::SignatureVerification(e));
        },
    };
    if sig_bytes.len() != 64 {
        return Err(Error::SignatureVerification(owned("Invalid signature length")));
    }
    let arr = to_array64(sig_bytes);
    match verify_with_key(&verifying_key, message.as_slice(), &arr) {
        Ok(()) => Ok(()),
        Err(e) => Err(Error::SignatureVerification(e)),
    }
}

/// The address of a public key names that key.
pub proof fn lemma_address_key_of_chain_address(k: Seq<u8>)
    requires
        k.len() == 32,
    ensures
        address_key(chain_address(k)) == Some(k),
{
    let a = chain_address(k);
    assert(hex_prefix().is_prefix_of(a)) by {
        assert(a.subrange(0, 2) =~= hex_prefix());
    }
    assert(a.skip(2) =~= hex_text(k));
    lemma_hex_roundtrip(k);
}

/// A transaction signed with a secret key, by the address of its public key, passes signature
/// verification unless it is a delegated consumption that is not payload version 2.
proof fn lemma_signed_by_key_verifies(secret: Seq<u8>, t: SignedTxView)
    requires
        ed25519_public(secret).len() == 32,
        ed25519_key_valid(ed25519_public(secret)),
        t.signer == chain_address(ed25519_public(secret)),
        ed25519_verify(ed25519_public(secret), signing_bytes(t), ed25519_sign(secret, signing_bytes(t))),
        ed25519_sign(secret, signing_bytes(t)).len() == 64,
        !delegated_v1(t),
    ensures
        signature_error(signed_view(secret, t)) is None,
{
    lemma_address_key_of_chain_address(ed25519_public(secret));
    let st = signed_view(secret, t);
    assert(signing_bytes(st) == signing_bytes(t));
}

} // verus!
