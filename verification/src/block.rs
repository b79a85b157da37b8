//! Blocks: an ordered batch of transactions with linkage metadata and a
//! cached content hash, kept consistent by the builder methods.

use vstd::prelude::*;
use crate::crypto::{blake2s_digest, blake2s_of, hex_encode};
use crate::encoding::{
    be_prefix_value, hex_of, opt_str_encoding, pow256, push_bytes, push_str, push_u128_be,
    u128_be_bytes, lemma_be_prefix_value_bound,
};
use crate::traits::Hashable;
use crate::transaction::{tx_full_encoding, Transaction, TxV};

verus! {

/// The concatenated digests of a batch of transactions, in order. The
/// order is execution order and is part of the block's hash.
pub open spec fn tx_digests(txs: Seq<TxV>) -> Seq<u8>
    decreases txs.len(),
{
    if txs.len() == 0 {
        Seq::empty()
    } else {
        tx_digests(txs.drop_last()) + blake2s_of(tx_full_encoding(txs.last()))
    }
}

/// A block's hashing payload: `(nonce, prev_hash, transactions)`.
pub open spec fn block_encoding(nonce: u128, prev_hash: Option<Seq<char>>, txs: Seq<TxV>) -> Seq<
    u8,
> {
    u128_be_bytes(nonce) + opt_str_encoding(prev_hash) + tx_digests(txs)
}

/// A block's content hash: the hex form of the digest of its payload.
pub open spec fn block_hash_of(nonce: u128, prev_hash: Option<Seq<char>>, txs: Seq<TxV>) -> Seq<
    char,
> {
    hex_of(blake2s_of(block_encoding(nonce, prev_hash, txs)))
}

/// The mathematical value of a `Block`.
pub struct BlockV {
    pub nonce: u128,
    pub prev_hash: Option<Seq<char>>,
    pub transactions: Seq<TxV>,
    pub hash: Option<Seq<char>>,
}

/// The content hash a block's fields call for (the cached `hash` field
/// plays no part in it).
pub open spec fn block_hash(b: BlockV) -> Seq<char> {
    block_hash_of(b.nonce, b.prev_hash, b.transactions)
}

/// A block's hash read as an integer for the difficulty gate: the value
/// of the digest's 16 leading bytes, big-endian. This scales the
/// 256-bit digest down to the 128-bit range the target lives in.
pub open spec fn block_hash_value(b: BlockV) -> int {
    be_prefix_value(blake2s_of(block_encoding(b.nonce, b.prev_hash, b.transactions)), 16)
}

/// An ordered batch of transactions plus linkage metadata. `prev_hash`
/// is `None` only for a genesis block. The builder methods keep the
/// cached `hash` equal to the content hash of the other fields;
/// `verify` detects any tampering done behind their back.
#[derive(Debug)]
pub struct Block {
    pub nonce: u128,
    pub prev_hash: Option<crate::Hash>,
    pub transactions: Vec<Transaction>,
    pub hash: Option<crate::Hash>,
}

impl View for Block {
    type V = BlockV;

    open spec fn view(&self) -> BlockV {
        BlockV {
            nonce: self.nonce,
            prev_hash: self.prev_hash.deep_view(),
            transactions: Seq::new(self.transactions@.len(), |i: int| self.transactions@[i]@),
            hash: self.hash.deep_view(),
        }
    }
}

/// `pow256` is positive.
proof fn lemma_pow256_pos(n: int)
    ensures
        pow256(n) >= 1,
    decreases n,
{
    if n > 0 {
        lemma_pow256_pos(n - 1);
    }
}

/// `pow256` only grows with its exponent.
proof fn lemma_pow256_mono(a: int, b: int)
    requires
        a <= b,
    ensures
        pow256(a) <= pow256(b),
    decreases b - a,
{
    if a < b {
        lemma_pow256_mono(a, b - 1);
        lemma_pow256_pos(b - 1);
    }
}

impl Block {
    /// The hashing payload, built exactly as `block_encoding` states.
    fn encoded_bytes(&self) -> (r: Vec<u8>)
        ensures
            r@ == block_encoding(self@.nonce, self@.prev_hash, self@.transactions),
    {
        let mut out: Vec<u8> = Vec::new();
        push_u128_be(&mut out, self.nonce);
        match &self.prev_hash {
            None => out.push(0u8),
            Some(h) => {
                out.push(1u8);
                push_str(&mut out, h);
            },
        }
        proof {
            assert(out@ =~= u128_be_bytes(self@.nonce) + opt_str_encoding(self@.prev_hash));
        }
        let ghost head = out@;
        let mut i: usize = 0;
        while i < self.transactions.len()
            invariant
                i <= self.transactions@.len(),
                head == u128_be_bytes(self@.nonce) + opt_str_encoding(self@.prev_hash),
                out@ == head + tx_digests(self@.transactions.take(i as int)),
            decreases self.transactions@.len() - i,
        {
            let bytes = (&self.transactions[i]).full_encoded_bytes();
            let digest = blake2s_digest(&bytes);
            push_bytes(&mut out, &digest);
            proof {
                let txs = self@.transactions;
                assert(txs.take((i + 1) as int).drop_last() =~= txs.take(i as int));
                assert(txs.take((i + 1) as int).last() == txs[i as int]);
            }
            i += 1;
        }
        proof {
            assert(self@.transactions.take(self.transactions@.len() as int)
                =~= self@.transactions);
            assert(out@ =~= block_encoding(self@.nonce, self@.prev_hash, self@.transactions));
        }
        out
    }

    /// Refresh the cached hash from the current fields.
    fn update_hash(&mut self)
        ensures
            final(self)@.nonce == old(self)@.nonce,
            final(self)@.prev_hash == old(self)@.prev_hash,
            final(self)@.transactions == old(self)@.transactions,
            final(self)@.hash == Some(block_hash(final(self)@)),
    {
        let bytes = self.encoded_bytes();
        let digest = blake2s_digest(&bytes);
        self.hash = Some(hex_encode(&digest));
    }

    /// An empty block linked to `prev_hash` (`None` only for genesis).
    pub fn new(prev_hash: Option<crate::Hash>) -> (r: Block)
        ensures
            r@.nonce == 0,
            r@.prev_hash == prev_hash.deep_view(),
            r@.transactions == Seq::<TxV>::empty(),
            r@.hash == Some(block_hash(r@)),
    {
        let mut block = Block { nonce: 0, prev_hash, transactions: Vec::new(), hash: None };
        proof {
            assert(block@.transactions =~= Seq::<TxV>::empty());
        }
        block.update_hash();
        block
    }

    /// Append a transaction; order is execution order and is part of
    /// the hash, which is refreshed.
    pub fn add_transaction(&mut self, transaction: Transaction)
        ensures
            final(self)@.nonce == old(self)@.nonce,
            final(self)@.prev_hash == old(self)@.prev_hash,
            final(self)@.transactions == old(self)@.transactions.push(transaction@),
            final(self)@.hash == Some(block_hash(final(self)@)),
    {
        self.transactions.push(transaction);
        proof {
            assert(self@.transactions =~= old(self)@.transactions.push(transaction@));
        }
        self.update_hash();
    }

    /// Set the proof-of-work nonce candidate; the hash is refreshed.
    pub fn set_nonce(&mut self, nonce: u128)
        ensures
            final(self)@.nonce == nonce,
            final(self)@.prev_hash == old(self)@.prev_hash,
            final(self)@.transactions == old(self)@.transactions,
            final(self)@.hash == Some(block_hash(final(self)@)),
    {
        self.nonce = nonce;
        self.update_hash();
    }

    /// Whether the cached hash matches the recomputed content hash;
    /// false after any post-construction tampering with the fields.
    pub fn verify(&self) -> (r: bool)
        ensures
            r == (self@.hash == Some(block_hash(self@))),
    {
        match &self.hash {
            None => false,
            Some(stored) => {
                let computed = self.hash();
                *stored == computed
            },
        }
    }

    /// The block's hash read as an integer, as the difficulty gate does.
    pub fn pow_value(&self) -> (v: u128)
        ensures
            v as int == block_hash_value(self@),
    {
        let bytes = self.encoded_bytes();
        let digest = blake2s_digest(&bytes);
        let mut v: u128 = 0;
        let mut i: usize = 0;
        while i < 16
            invariant
                i <= 16,
                digest@ == blake2s_of(
                    block_encoding(self@.nonce, self@.prev_hash, self@.transactions),
                ),
                digest@.len() == 32,
                v as int == be_prefix_value(digest@, i as int),
                (v as int) < pow256(i as int),
            decreases 16 - i,
        {
            proof {
                lemma_pow256_mono(i as int + 1, 16);
                reveal_with_fuel(pow256, 17);
                assert(pow256(16) == u128::MAX as int + 1);
            }
            v = v * 256 + (digest[i] as u128);
            i += 1;
        }
        v
    }
}

impl Hashable for Block {
    open spec fn hash_spec(&self) -> Seq<char> {
        block_hash(self@)
    }

    fn hash(&self) -> (r: crate::Hash) {
        let bytes = self.encoded_bytes();
        let digest = blake2s_digest(&bytes);
        hex_encode(&digest)
    }
}

/// An owned copy of a transaction batch, equal view by view.
fn clone_transactions(transactions: &Vec<Transaction>) -> (r: Vec<Transaction>)
    ensures
        r@.len() == transactions@.len(),
        forall|i: int| 0 <= i < r@.len() ==> r@[i]@ == transactions@[i]@,
{
    let mut r: Vec<Transaction> = Vec::new();
    let mut i: usize = 0;
    while i < transactions.len()
        invariant
            i <= transactions@.len(),
            r@.len() == i,
            forall|j: int| 0 <= j < i ==> r@[j]@ == transactions@[j]@,
        decreases transactions@.len() - i,
    {
        r.push((&transactions[i]).clone());
        i += 1;
    }
    r
}

impl Clone for Block {
    fn clone(&self) -> (r: Self)
        ensures
            r@ == self@,
    {
        let r = Block {
            nonce: self.nonce,
            prev_hash: match &self.prev_hash {
                Some(h) => Some(h.clone()),
                None => None,
            },
            transactions: clone_transactions(&self.transactions),
            hash: match &self.hash {
                Some(h) => Some(h.clone()),
                None => None,
            },
        };
        proof {
            assert(r@.transactions =~= self@.transactions);
        }
        r
    }
}

} // verus!
