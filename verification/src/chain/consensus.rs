//! Proof of work: search for the smallest nonce whose block hash is below a target.
use crate::chain::block::Block;
use crate::encoding::{hex_encode, hex_text, sha256, sha256_digest};
use crate::wire::put_raw;
use vstd::prelude::*;
use vstd::utf8::*;

verus! {

broadcast use vstd::string::group_string_axioms;

/// The largest nonce tried.
pub const MAX_NONCE: i64 = 9223372036854775807i64;

/// Big-endian bytes of a `u64`.
pub open spec fn enc_u64_be(x: u64) -> Seq<u8> {
    seq![
        ((x >> 56) & 0xff) as u8,
        ((x >> 48) & 0xff) as u8,
        ((x >> 40) & 0xff) as u8,
        ((x >> 32) & 0xff) as u8,
        ((x >> 24) & 0xff) as u8,
        ((x >> 16) & 0xff) as u8,
        ((x >> 8) & 0xff) as u8,
        (x & 0xff) as u8,
    ]
}

/// The number whose big-endian bytes are `b`.
pub open spec fn be_value(b: Seq<u8>) -> nat
    decreases b.len(),
{
    if b.len() == 0 {
        0
    } else {
        be_value(b.drop_last()) * 256 + b.last() as nat
    }
}

/// `num-bigint`: whether the number with big-endian bytes `hash` is below the one with bytes
/// `target` (`BigInt::from_bytes_be` with a plus sign, then `<`).
#[verifier::external_body]
fn hash_below_target(hash: &[u8], target: &[u8]) -> (r: bool)
    ensures
        r == (be_value(hash@) < be_value(target@)),
{
    let h = num_bigint::BigInt::from_bytes_be(num_bigint::Sign::Plus, hash);
    let t = num_bigint::BigInt::from_bytes_be(num_bigint::Sign::Plus, target);
    h < t
}

/// Proof-of-work search over a block, against a target given as big-endian bytes.
pub struct ProofOfWork {
    pub block: Block,
    pub target: Vec<u8>,
}

/// What is hashed for `nonce`: the previous hash's bytes, then timestamp, height and nonce,
/// each as 8 big-endian bytes.
pub open spec fn pow_data(b: Block, nonce: i64) -> Seq<u8> {
    encode_utf8(b.pre_block_hash@) + enc_u64_be(b.timestamp as u64) + enc_u64_be(b.height as u64)
        + enc_u64_be(nonce as u64)
}

/// The hash for `nonce` is below the target.
pub open spec fn meets_target(b: Block, target: Seq<u8>, nonce: i64) -> bool {
    be_value(sha256(pow_data(b, nonce))) < be_value(target)
}

fn put_u64_be(out: &mut Vec<u8>, x: u64)
    ensures
        final(out)@ == old(out)@ + enc_u64_be(x),
{
    out.push(((x >> 56) & 0xff) as u8);
    out.push(((x >> 48) & 0xff) as u8);
    out.push(((x >> 40) & 0xff) as u8);
    out.push(((x >> 32) & 0xff) as u8);
    out.push(((x >> 24) & 0xff) as u8);
    out.push(((x >> 16) & 0xff) as u8);
    out.push(((x >> 8) & 0xff) as u8);
    out.push((x & 0xff) as u8);
    proof {
        assert(final(out)@ =~= old(out)@ + enc_u64_be(x));
    }
}

impl ProofOfWork {
    pub fn new(block: Block, target: Vec<u8>) -> (p: ProofOfWork)
        ensures
            p.block == block,
            p.target == target,
    {
        ProofOfWork { block, target }
    }

    /// The bytes hashed for `nonce`.
    pub fn prepare_data(&self, nonce: i64) -> (r: Vec<u8>)
        ensures
            r@ == pow_data(self.block, nonce),
    {
        let mut data: Vec<u8> = Vec::new();
        put_raw(&mut data, self.block.pre_block_hash.as_str().as_bytes());
        proof {
            assert(data@ =~= encode_utf8(self.block.pre_block_hash@));
        }
        put_u64_be(&mut data, self.block.timestamp as u64);
        put_u64_be(&mut data, self.block.height as u64);
        put_u64_be(&mut data, nonce as u64);
        data
    }

    /// The smallest nonce in `[0, MAX_NONCE)` whose hash is below the target, with that hash
    /// in hex; `MAX_NONCE` and the last hash tried when none is.
    pub fn run(&self) -> (r: (i64, String))
        ensures
            0 <= r.0 <= MAX_NONCE,
            forall|n: i64| 0 <= n < r.0 ==> !meets_target(self.block, self.target@, n),
            r.0 < MAX_NONCE ==> meets_target(self.block, self.target@, r.0) && r.1@ == hex_text(
                sha256(pow_data(self.block, r.0)),
            ),
            r.0 == MAX_NONCE ==> r.1@ == hex_text(sha256(pow_data(self.block, (MAX_NONCE - 1) as i64))),
    {
        let mut nonce: i64 = 0;
        let mut hash: Vec<u8> = Vec::new();
        while nonce < MAX_NONCE
            invariant
                0 <= nonce <= MAX_NONCE,
                forall|n: i64| 0 <= n < nonce ==> !meets_target(self.block, self.target@, n),
                nonce > 0 ==> hash@ == sha256(pow_data(self.block, (nonce - 1) as i64)),
            decreases MAX_NONCE - nonce,
        {
            let data = self.prepare_data(nonce);
            hash = sha256_digest(data.as_slice());
            if hash_below_target(hash.as_slice(), self.target.as_slice()) {
                let h = hex_encode(hash.as_slice());
                return (nonce, h);
            }
            nonce = nonce + 1;
        }
        let h = hex_encode(hash.as_slice());
        (nonce, h)
    }
}

} // verus!
