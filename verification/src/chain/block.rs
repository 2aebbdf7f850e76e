//! A block: a batch of signed transactions linked to its predecessor by hash.
use crate::error::Result;
use crate::evidence::txs_bytes;
use crate::table::Duplicate;
use crate::tx::encode::put_signed_tx;
use crate::tx::transaction::{SignedTx, SignedTxView};
use crate::wire::{enc_str, enc_u64, put_str, put_u64};
use vstd::prelude::*;

verus! {

/// Seconds since the Unix epoch, from the system clock (0 for a clock set before it).
#[verifier::external_body]
pub fn current_timestamp() -> (r: i64) {
    match std::time::SystemTime::now().duration_since(std::time::UNIX_EPOCH) {
        Ok(d) => d.as_secs() as i64,
        Err(_) => 0,
    }
}

/// A block of transactions.
#[derive(Debug, Clone)]
pub struct Block {
    pub timestamp: i64,
    pub pre_block_hash: String,
    pub hash: String,
    pub transactions: Vec<SignedTx>,
    pub nonce: i64,
    pub height: usize,
}

/// The views of the block's transactions.
pub open spec fn block_txs(b: Block) -> Seq<SignedTxView> {
    b.transactions@.map_values(|t: SignedTx| t@)
}

/// Canonical bytes of a block: timestamp, previous hash, hash, the transactions
/// (count first), nonce and height.
pub open spec fn enc_block(b: Block) -> Seq<u8> {
    enc_u64(b.timestamp as u64) + enc_str(b.pre_block_hash@) + enc_str(b.hash@) + enc_u64(
        b.transactions@.len() as u64,
    ) + txs_bytes(block_txs(b)) + enc_u64(b.nonce as u64) + enc_u64(b.height as u64)
}

impl Block {
    /// A block of copies of `transactions`, stamped with the current time, not yet sealed
    /// (empty hash, nonce 0).
    pub fn new_block(pre_block_hash: String, transactions: &[SignedTx], height: usize) -> (b: Block)
        ensures
            b.pre_block_hash@ == pre_block_hash@,
            b.hash@ == Seq::<char>::empty(),
            block_txs(b) == transactions@.map_values(|t: SignedTx| t@),
            b.nonce == 0,
            b.height == height,
    {
        let mut txs: Vec<SignedTx> = Vec::new();
        let mut i: usize = 0;
        while i < transactions.len()
            invariant
                i <= transactions@.len(),
                txs@.len() == i,
                txs@.map_values(|t: SignedTx| t@) == transactions@.take(i as int).map_values(
                    |t: SignedTx| t@,
                ),
            decreases transactions@.len() - i,
        {
            let d = transactions[i].duplicate();
            let ghost before = txs@;
            txs.push(d);
            proof {
                assert(txs@ == before.push(d));
                assert forall|j: int| 0 <= j < i + 1 implies #[trigger] txs@[j]@ == transactions@[j]@ by {
                    if j < i {
                        assert(before.map_values(|t: SignedTx| t@)[j] == transactions@.take(i as int).map_values(
                            |t: SignedTx| t@,
                        )[j]);
                        assert(before[j] == txs@[j]);
                    }
                }
                assert(txs@.map_values(|t: SignedTx| t@) =~= transactions@.take(i + 1).map_values(
                    |t: SignedTx| t@,
                ));
            }
            i = i + 1;
        }
        proof {
            assert(transactions@.take(i as int) =~= transactions@);
        }
        Block {
            timestamp: current_timestamp(),
            pre_block_hash,
            hash: String::new(),
            transactions: txs,
            nonce: 0,
            height,
        }
    }

    /// The block's canonical bytes. Never fails.
    pub fn to_bytes(&self) -> (r: Result<Vec<u8>>)
        ensures
            r matches Ok(v) && v@ == enc_block(*self),
    {
        let mut out: Vec<u8> = Vec::new();
        put_u64(&mut out, self.timestamp as u64);
        proof {
            assert(out@ =~= enc_u64(self.timestamp as u64));
        }
        put_str(&mut out, self.pre_block_hash.as_str());
        put_str(&mut out, self.hash.as_str());
        put_u64(&mut out, self.transactions.len() as u64);
        let ghost head = out@;
        let mut i: usize = 0;
        while i < self.transactions.len()
            invariant
                i <= self.transactions@.len(),
                out@ == head + txs_bytes(self.transactions@.take(i as int).map_values(|t: SignedTx| t@)),
            decreases self.transactions@.len() - i,
        {
            put_signed_tx(&mut out, &self.transactions[i]);
            proof {
                let next = self.transactions@.take(i + 1).map_values(|t: SignedTx| t@);
                assert(next.drop_last() =~= self.transactions@.take(i as int).map_values(|t: SignedTx| t@));
            }
            i = i + 1;
        }
        proof {
            assert(self.transactions@.take(i as int) =~= self.transactions@);
        }
        put_u64(&mut out, self.nonce as u64);
        put_u64(&mut out, self.height as u64);
        Ok(out)
    }
}

} // verus!
