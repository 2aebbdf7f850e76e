//! Delegation proofs and principals: the claims an owner signs to let a delegate consume,
//! their canonical bytes, and the binding of principals (`0x` hex keys or `did:key`) to keys.
use crate::encoding::{
    base58_bytes, bs58_decode, hex_bytes, hex_encode, hex_text, lowercase, skip_chars,
    starts_with_chars, to_array32, to_lowercase, trim, trim_chars, hex_decode,
};
use crate::error::{Error, Result};
use crate::evidence::{evidence_hash, evidence_hash_of};
use crate::text::{concat2, owned};
use crate::wire::{
    enc_bytes, enc_opt_str, enc_opt_u64, enc_str, enc_u64, lemma_read_bytes_at,
    lemma_read_opt_str_at, lemma_read_opt_u64_at, lemma_read_str_at, lemma_read_u64_at,
    put_bytes, put_opt_str, put_opt_u64,
    put_str, put_u64, read_bytes, read_bytes_spec, read_opt_str, read_opt_str_spec, read_opt_u64,
    read_opt_u64_spec, read_str, read_str_spec, read_u64, read_u64_spec,
};
use vstd::prelude::*;
use vstd::string::*;
use vstd::utf8::*;

verus! {

broadcast use vstd::string::group_string_axioms;

/// Minimal delegation claims, signed by the owner (issuer). The proof is valid only for the
/// meter `(issuer, service_id)`, for the ability named, between `iat` and `exp`.
#[derive(Debug, Clone, PartialEq, Eq)]
pub struct DelegationProofMinimal {
    pub iat: u64,
    pub exp: u64,
    pub issuer: String,
    pub audience: String,
    /// Resource scope: the service of the owner's meter.
    pub service_id: String,
    /// Ability scope; when present it must be `consume`.
    pub ability: Option<String>,
    /// Caveat: units consumed under this capability never exceed this.
    pub max_units: Option<u64>,
    /// Caveat: cost consumed under this capability never exceeds this.
    pub max_cost: Option<u64>,
}

/// Abstract delegation claims.
pub struct ClaimsView {
    pub iat: u64,
    pub exp: u64,
    pub issuer: Seq<char>,
    pub audience: Seq<char>,
    pub service_id: Seq<char>,
    pub ability: Option<Seq<char>>,
    pub max_units: Option<u64>,
    pub max_cost: Option<u64>,
}

/// The view of an optional string.
pub open spec fn opt_text(o: Option<String>) -> Option<Seq<char>> {
    match o {
        Some(s) => Some(s@),
        None => None,
    }
}

impl View for DelegationProofMinimal {
    type V = ClaimsView;

    open spec fn view(&self) -> ClaimsView {
        ClaimsView {
            iat: self.iat,
            exp: self.exp,
            issuer: self.issuer@,
            audience: self.audience@,
            service_id: self.service_id@,
            ability: opt_text(self.ability),
            max_units: self.max_units,
            max_cost: self.max_cost,
        }
    }
}

/// Signed delegation proof: the claims and the issuer's Ed25519 signature over their
/// canonical bytes.
#[derive(Debug, Clone, PartialEq, Eq)]
pub struct SignedDelegationProof {
    pub claims: DelegationProofMinimal,
    pub signature: Vec<u8>,
}

/// Canonical bytes of the claims: what the owner signs.
pub open spec fn enc_claims(c: ClaimsView) -> Seq<u8> {
    enc_u64(c.iat) + enc_u64(c.exp) + enc_str(c.issuer) + enc_str(c.audience) + enc_str(
        c.service_id,
    ) + enc_opt_str(c.ability) + enc_opt_u64(c.max_units) + enc_opt_u64(c.max_cost)
}

/// Canonical bytes of a signed proof: the claims, then the length-prefixed signature.
pub open spec fn enc_signed_proof(c: ClaimsView, sig: Seq<u8>) -> Seq<u8> {
    enc_claims(c) + enc_bytes(sig)
}

fn put_claims(out: &mut Vec<u8>, c: &DelegationProofMinimal)
    ensures
        final(out)@ == old(out)@ + enc_claims(c@),
{
    let mut v: Vec<u8> = Vec::new();
    put_u64(&mut v, c.iat);
    proof {
        assert(v@ =~= enc_u64(c.iat));
    }
    put_u64(&mut v, c.exp);
    put_str(&mut v, c.issuer.as_str());
    put_str(&mut v, c.audience.as_str());
    put_str(&mut v, c.service_id.as_str());
    put_opt_str(&mut v, &c.ability);
    put_opt_u64(&mut v, c.max_units);
    put_opt_u64(&mut v, c.max_cost);
    out.append(&mut v);
}

/// The message the owner must sign to create a valid proof: the claims' canonical bytes.
pub fn delegation_claims_to_sign(claims: &DelegationProofMinimal) -> (r: Vec<u8>)
    ensures
        r@ == enc_claims(claims@),
{
    let mut out: Vec<u8> = Vec::new();
    put_claims(&mut out, claims);
    proof {
        assert(out@ =~= enc_claims(claims@));
    }
    out
}

/// Proof bytes from the claims and the owner's signature over `delegation_claims_to_sign`.
pub fn build_signed_proof(claims: &DelegationProofMinimal, signature: Vec<u8>) -> (r: Vec<u8>)
    ensures
        r@ == enc_signed_proof(claims@, signature@),
{
    let mut out: Vec<u8> = Vec::new();
    put_claims(&mut out, claims);
    proof {
        assert(out@ =~= enc_claims(claims@));
    }
    put_bytes(&mut out, signature.as_slice());
    out
}

/// Claims read at `pos`, and the position after them.
pub open spec fn read_claims_spec(b: Seq<u8>, pos: int) -> Option<(ClaimsView, int)> {
    match read_u64_spec(b, pos) {
        None => None,
        Some((iat, p1)) => match read_u64_spec(b, p1) {
            None => None,
            Some((exp, p2)) => match read_str_spec(b, p2) {
                None => None,
                Some((issuer, p3)) => match read_str_spec(b, p3) {
                    None => None,
                    Some((audience, p4)) => match read_str_spec(b, p4) {
                        None => None,
                        Some((service_id, p5)) => match read_opt_str_spec(b, p5) {
                            None => None,
                            Some((ability, p6)) => match read_opt_u64_spec(b, p6) {
                                None => None,
                                Some((max_units, p7)) => match read_opt_u64_spec(b, p7) {
                                    None => None,
                                    Some((max_cost, p8)) => Some(
                                        (
                                            ClaimsView {
                                                iat,
                                                exp,
                                                issuer,
                                                audience,
                                                service_id,
                                                ability,
                                                max_units,
                                                max_cost,
                                            },
                                            p8,
                                        ),
                                    ),
                                },
                            },
                        },
                    },
                },
            },
        },
    }
}

/// The signed proof held at the start of `b` (bytes after it are ignored).
pub open spec fn read_signed_proof_spec(b: Seq<u8>) -> Option<(ClaimsView, Seq<u8>)> {
    match read_claims_spec(b, 0) {
        None => None,
        Some((c, p)) => match read_bytes_spec(b, p) {
            None => None,
            Some((sig, _)) => Some((c, sig)),
        },
    }
}

/// Read a signed proof from the start of `bytes`; `None` where they do not hold one.
pub fn parse_signed_proof(bytes: &[u8]) -> (r: Option<SignedDelegationProof>)
    ensures
        match r {
            Some(p) => read_signed_proof_spec(bytes@) == Some((p.claims@, p.signature@)),
            None => read_signed_proof_spec(bytes@) is None,
        },
{
    let (iat, p1) = match read_u64(bytes, 0) {
        Some(x) => x,
        None => return None,
    };
    let (exp, p2) = match read_u64(bytes, p1) {
        Some(x) => x,
        None => return None,
    };
    let (issuer, p3) = match read_str(bytes, p2) {
        Some(x) => x,
        None => return None,
    };
    let (audience, p4) = match read_str(bytes, p3) {
        Some(x) => x,
        None => return None,
    };
    let (service_id, p5) = match read_str(bytes, p4) {
        Some(x) => x,
        None => return None,
    };
    let (ability, p6) = match read_opt_str(bytes, p5) {
        Some(x) => x,
        None => return None,
    };
    let (max_units, p7) = match read_opt_u64(bytes, p6) {
        Some(x) => x,
        None => return None,
    };
    let (max_cost, p8) = match read_opt_u64(bytes, p7) {
        Some(x) => x,
        None => return None,
    };
    let (signature, _p9) = match read_bytes(bytes, p8) {
        Some(x) => x,
        None => return None,
    };
    let claims = DelegationProofMinimal {
        iat,
        exp,
        issuer,
        audience,
        service_id,
        ability,
        max_units,
        max_cost,
    };
    Some(SignedDelegationProof { claims, signature })
}

proof fn lemma_pieces(
    e1: Seq<u8>,
    e2: Seq<u8>,
    e3: Seq<u8>,
    e4: Seq<u8>,
    e5: Seq<u8>,
    e6: Seq<u8>,
    e7: Seq<u8>,
    e8: Seq<u8>,
    e9: Seq<u8>,
)
    ensures
        ({
            let b = e1 + e2 + e3 + e4 + e5 + e6 + e7 + e8 + e9;
            let p1 = e1.len() as int;
            let p2 = p1 + e2.len();
            let p3 = p2 + e3.len();
            let p4 = p3 + e4.len();
            let p5 = p4 + e5.len();
            let p6 = p5 + e6.len();
            let p7 = p6 + e7.len();
            let p8 = p7 + e8.len();
            &&& b.len() == p8 + e9.len()
            &&& b.subrange(0, p1) == e1
            &&& b.subrange(p1, p2) == e2
            &&& b.subrange(p2, p3) == e3
            &&& b.subrange(p3, p4) == e4
            &&& b.subrange(p4, p5) == e5
            &&& b.subrange(p5, p6) == e6
            &&& b.subrange(p6, p7) == e7
            &&& b.subrange(p7, p8) == e8
            &&& b.subrange(p8, p8 + e9.len()) == e9
        }),
{
    let b = e1 + e2 + e3 + e4 + e5 + e6 + e7 + e8 + e9;
    let p1 = e1.len() as int;
    let p2 = p1 + e2.len();
    let p3 = p2 + e3.len();
    let p4 = p3 + e4.len();
    let p5 = p4 + e5.len();
    let p6 = p5 + e6.len();
    let p7 = p6 + e7.len();
    let p8 = p7 + e8.len();
    assert(b.subrange(0, p1) =~= e1);
    assert(b.subrange(p1, p2) =~= e2);
    assert(b.subrange(p2, p3) =~= e3);
    assert(b.subrange(p3, p4) =~= e4);
    assert(b.subrange(p4, p5) =~= e5);
    assert(b.subrange(p5, p6) =~= e6);
    assert(b.subrange(p6, p7) =~= e7);
    assert(b.subrange(p7, p8) =~= e8);
    assert(b.subrange(p8, p8 + e9.len()) =~= e9);
}

/// Parsing the bytes built from claims and a signature gives back those claims and that
/// signature.
#[verifier::spinoff_prover]
#[verifier::rlimit(40)]
pub proof fn law_signed_proof_parses_back(c: ClaimsView, sig: Seq<u8>)
    requires
        encode_utf8(c.issuer).len() <= u64::MAX,
        encode_utf8(c.audience).len() <= u64::MAX,
        encode_utf8(c.service_id).len() <= u64::MAX,
        c.ability matches Some(a) ==> encode_utf8(a).len() <= u64::MAX,
        sig.len() <= u64::MAX,
    ensures
        read_signed_proof_spec(enc_signed_proof(c, sig)) == Some((c, sig)),
{
    let e1 = enc_u64(c.iat);
    let e2 = enc_u64(c.exp);
    let e3 = enc_str(c.issuer);
    let e4 = enc_str(c.audience);
    let e5 = enc_str(c.service_id);
    let e6 = enc_opt_str(c.ability);
    let e7 = enc_opt_u64(c.max_units);
    let e8 = enc_opt_u64(c.max_cost);
    let e9 = enc_bytes(sig);
    let b = enc_signed_proof(c, sig);
    let p1 = e1.len() as int;
    let p2 = p1 + e2.len();
    let p3 = p2 + e3.len();
    let p4 = p3 + e4.len();
    let p5 = p4 + e5.len();
    let p6 = p5 + e6.len();
    let p7 = p6 + e7.len();
    let p8 = p7 + e8.len();
    let p9 = p8 + e9.len();
    assert(b == e1 + e2 + e3 + e4 + e5 + e6 + e7 + e8 + e9);
    lemma_pieces(e1, e2, e3, e4, e5, e6, e7, e8, e9);
    lemma_read_u64_at(b, 0, c.iat);
    lemma_read_u64_at(b, p1, c.exp);
    lemma_read_str_at(b, p2, c.issuer);
    lemma_read_str_at(b, p3, c.audience);
    lemma_read_str_at(b, p4, c.service_id);
    lemma_read_opt_str_at(b, p5, c.ability);
    lemma_read_opt_u64_at(b, p6, c.max_units);
    lemma_read_opt_u64_at(b, p7, c.max_cost);
    lemma_read_bytes_at(b, p8, sig);
}

/// Capability id of a proof: the evidence hash (SHA-256, lowercase hex) of its exact bytes.
pub fn capability_id(proof_bytes: &[u8]) -> (r: String)
    ensures
        r@ == evidence_hash_of(proof_bytes@),
{
    evidence_hash(proof_bytes)
}

// ---------------------------------------------------------------------------------------
// Principals
// ---------------------------------------------------------------------------------------

/// `did:key:`
pub open spec fn did_key_prefix() -> Seq<char> {
    seq!['d', 'i', 'd', ':', 'k', 'e', 'y', ':']
}

/// `0x`
pub open spec fn hex_prefix() -> Seq<char> {
    seq!['0', 'x']
}

/// The 32-byte Ed25519 key a principal names, after trimming white space:
/// `did:key:z<base58>` whose bytes are the multicodec header `0xed 0x01` and the key, or
/// `0x` and 64 hex digits (either case).
pub open spec fn principal_key(p: Seq<char>) -> Option<Seq<u8>> {
    let s = trim_chars(p);
    if did_key_prefix().is_prefix_of(s) {
        let mb = trim_chars(s.skip(8));
        if mb.len() > 0 && mb[0] == 'z' {
            match base58_bytes(mb.skip(1)) {
                Some(d) => if d.len() == 34 && d[0] == 0xedu8 && d[1] == 0x01u8 {
                    Some(d.subrange(2, 34))
                } else {
                    None
                },
                None => None,
            }
        } else {
            None
        }
    } else if hex_prefix().is_prefix_of(s) {
        match hex_bytes(encode_utf8(lowercase(s.skip(2)))) {
            Some(k) => if k.len() == 32 {
                Some(k)
            } else {
                None
            },
            None => None,
        }
    } else {
        None
    }
}

/// The chain address of a key: `0x` and its lowercase hex.
pub open spec fn chain_address(k: Seq<u8>) -> Seq<char> {
    hex_prefix() + hex_text(k)
}

/// The 32-byte Ed25519 key of a principal (`0x` + 64 hex digits, or `did:key` with the
/// Ed25519 multicodec and nothing after the key). Fails with `PrincipalBindingFailed`.
pub fn principal_to_public_key(principal: &str) -> (r: Result<[u8; 32]>)
    ensures
        match principal_key(principal@) {
            Some(k) => r matches Ok(a) && a@ == k,
            None => r matches Err(Error::PrincipalBindingFailed(_)),
        },
{
    let s = trim(principal);
    proof {
        reveal_strlit("did:key:");
        reveal_strlit("0x");
        reveal_strlit("z");
        assert("did:key:"@ =~= did_key_prefix());
        assert("0x"@ =~= hex_prefix());
    }
    if starts_with_chars(s, "did:key:") {
        let mb = trim(skip_chars(s, 8));
        let n = mb.unicode_len();
        if n == 0 || mb.get_char(0) != 'z' {
            return Err(
                Error::PrincipalBindingFailed(
                    owned("did:key multibase value must start with 'z' (base58-btc)"),
                ),
            );
        }
        let body = skip_chars(mb, 1);
        let decoded = match bs58_decode(body) {
            Ok(d) => d,
            Err(e) => {
                return Err(
                    Error::PrincipalBindingFailed(
                        concat2("did:key base58 decode failed: ", e.as_str()),
                    ),
                );
            },
        };
        if decoded.len() != 34 || decoded[0] != 0xedu8 || decoded[1] != 0x01u8 {
            return Err(
                Error::PrincipalBindingFailed(
                    owned("did:key only supports Ed25519 (multicodec 0xed); wrong header or length"),
                ),
            );
        }
        let mut key: Vec<u8> = Vec::new();
        let mut i: usize = 2;
        while i < 34
            invariant
                2 <= i <= 34,
                decoded@.len() == 34,
                key@ == decoded@.subrange(2, i as int),
            decreases 34 - i,
        {
            key.push(decoded[i]);
            proof {
                assert(decoded@.subrange(2, i + 1) =~= decoded@.subrange(2, i as int).push(
                    decoded@[i as int],
                ));
            }
            i = i + 1;
        }
        return Ok(to_array32(&key));
    }
    if !starts_with_chars(s, "0x") {
        return Err(
            Error::PrincipalBindingFailed(
                owned("Principal must be 0x+hex (32-byte) or did:key (Ed25519)"),
            ),
        );
    }
    let hex_part = skip_chars(s, 2);
    let hex_lower = to_lowercase(hex_part);
    let bytes = match hex_decode(hex_lower.as_str()) {
        Ok(b) => b,
        Err(e) => {
            return Err(Error::PrincipalBindingFailed(concat2("Invalid hex: ", e.as_str())));
        },
    };
    if bytes.len() != 32 {
        return Err(
            Error::PrincipalBindingFailed(owned("Expected 32-byte pubkey (64 hex chars)")),
        );
    }
    Ok(to_array32(&bytes))
}

/// The chain address (`0x` + lowercase hex of the key) of a principal.
pub fn principal_to_chain_address(principal: &str) -> (r: Result<String>)
    ensures
        match principal_key(principal@) {
            Some(k) => r matches Ok(a) && a@ == chain_address(k),
            None => r matches Err(Error::PrincipalBindingFailed(_)),
        },
{
    let arr = principal_to_public_key(principal)?;
    let h = hex_encode(&arr);
    proof {
        reveal_strlit("0x");
        assert("0x"@ =~= hex_prefix());
    }
    Ok(concat2("0x", h.as_str()))
}

} // verus!
