//! Convenience entry point: build a block off the chain's current head
//! from a batch of transactions and ask the chain to admit it.

use vstd::prelude::*;
use crate::account::AccountV;
use crate::block::{block_hash, block_hash_of, Block, BlockV};
use crate::blockchain::{append_spec, Blockchain};
use crate::errors::Error;
use crate::traits::WorldState;
use crate::transaction::{Transaction, TxV};

verus! {

/// The block `append_block_with_tx` hands to `append_block`: the given
/// nonce and transactions, linked to `prev_hash`, with a correct
/// cached hash.
pub open spec fn built_block(nonce: u128, prev_hash: Option<Seq<char>>, txs: Seq<TxV>) -> BlockV {
    BlockV {
        nonce,
        prev_hash,
        transactions: txs,
        hash: Some(block_hash_of(nonce, prev_hash, txs)),
    }
}

/// Build a block off the chain's current head holding `transactions`
/// in order under the given nonce, and append it; the result is
/// exactly what `append_block` decides for that block.
pub fn append_block_with_tx(
    bc: &mut Blockchain,
    nonce: u128,
    transactions: Vec<Transaction>,
) -> (r: Result<(), Error>)
    requires
        old(bc).chain().len() > 0 && transactions@.len() > 0 ==> transactions@.last()@.timestamp
            >= transactions@.first()@.timestamp,
    ensures
        ({
            let txs = Seq::new(transactions@.len(), |i: int| transactions@[i]@);
            let prev = if old(bc).chain().len() == 0 {
                Option::<Seq<char>>::None
            } else {
                Some(block_hash(old(bc).chain().last()))
            };
            let b = built_block(nonce, prev, txs);
            match r {
                Ok(()) => append_spec(
                    old(bc).spec_target(),
                    old(bc).chain().len() as int,
                    old(bc).accounts(),
                    b,
                ) == Ok::<(Map<Seq<char>, AccountV>, u128), Error>(
                    (final(bc).accounts(), final(bc).spec_target()),
                ) && final(bc).chain() == old(bc).chain().push(b),
                Err(e) => append_spec(
                    old(bc).spec_target(),
                    old(bc).chain().len() as int,
                    old(bc).accounts(),
                    b,
                ) == Err::<(Map<Seq<char>, AccountV>, u128), Error>(e) && final(bc).chain()
                    == old(bc).chain() && final(bc).accounts() == old(bc).accounts()
                    && final(bc).spec_target() == old(bc).spec_target(),
            }
        }),
{
    let ghost txs = Seq::new(transactions@.len(), |i: int| transactions@[i]@);
    let prev_hash = bc.get_last_block_hash();
    let ghost prev: Option<Seq<char>> = prev_hash.deep_view();
    proof {
        if old(bc).chain().len() == 0 {
            assert(prev is None);
        } else {
            assert(prev == Some(block_hash(old(bc).chain().last())));
        }
    }
    let mut block = Block::new(prev_hash);
    block.set_nonce(nonce);
    let mut i: usize = 0;
    while i < transactions.len()
        invariant
            i <= transactions@.len(),
            txs == Seq::new(transactions@.len(), |j: int| transactions@[j]@),
            txs.len() == transactions@.len(),
            block@.nonce == nonce,
            block@.prev_hash == prev,
            block@.transactions == txs.take(i as int),
            block@.hash == Some(block_hash(block@)),
            *bc == *old(bc),
        decreases transactions@.len() - i,
    {
        block.add_transaction((&transactions[i]).clone());
        proof {
            assert(block@.transactions =~= txs.take(i as int + 1));
        }
        i += 1;
    }
    proof {
        assert(txs.take(transactions@.len() as int) =~= txs);
        assert(block@ == built_block(nonce, prev, txs));
        if old(bc).chain().len() > 0 && txs.len() > 0 {
            assert(block@.transactions.last() == transactions@.last()@);
            assert(block@.transactions.first() == transactions@.first()@);
        }
    }
    bc.append_block(block)
}

} // verus!
