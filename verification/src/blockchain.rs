//! The orchestrator: owns the chain, the ledger and the difficulty
//! target; admits blocks (validate, execute with all-or-nothing
//! rollback, gate, retarget) and audits the accepted chain.

use vstd::prelude::*;
use vstd::arithmetic::div_mod::lemma_fundamental_div_mod;
use crate::account::{Account, AccountType, AccountV};
use crate::block::{block_hash, block_hash_value, Block, BlockV};
use crate::errors::{Error, TxError};
use crate::ledger::Ledger;
use crate::traits::{Hashable, WorldState};
use crate::transaction::{tx_exec_spec, Transaction, TxV};
use crate::{AccountId, Balance, PublicKey};

verus! {

/// The maximum difficulty target: fixed at genesis acceptance, never
/// exceeded by any retarget.
pub const MAX_TARGET: u128 = 0x00000000ffff0000000000000000000000000000;

/// Execute `txs[k..]` in order against `state`: the state after all of
/// them, or the index of the first failure and its cause.
pub open spec fn exec_txs_from(
    txs: Seq<TxV>,
    k: int,
    state: Map<Seq<char>, AccountV>,
    is_genesis: bool,
) -> Result<Map<Seq<char>, AccountV>, (int, TxError)>
    decreases txs.len() - k,
{
    if k < 0 || k >= txs.len() {
        Ok(state)
    } else {
        match tx_exec_spec(txs[k], state, is_genesis) {
            Ok(next) => exec_txs_from(txs, k + 1, next, is_genesis),
            Err(e) => Err((k, e)),
        }
    }
}

/// Execute a whole block's transactions in order.
pub open spec fn block_exec_spec(
    txs: Seq<TxV>,
    state: Map<Seq<char>, AccountV>,
    is_genesis: bool,
) -> Result<Map<Seq<char>, AccountV>, (int, TxError)> {
    exec_txs_from(txs, 0, state, is_genesis)
}

/// The target used to gate the block after this one: the block's
/// observed timestamp spread over the expected spread (10 minutes per
/// transaction), floored, clamped to at most 4, scales the current
/// target; the result never exceeds `MAX_TARGET`. A ratio of zero
/// drives the target to zero and leaves the next block impossible to
/// satisfy; that sensitivity is part of the design and is kept.
pub open spec fn retarget(target: u128, txs: Seq<TxV>) -> u128
    recommends
        txs.len() > 0,
{
    let actual = txs.last().timestamp - txs.first().timestamp;
    let expected = (txs.len() * 600) as int;
    let ratio0 = actual / expected;
    let ratio: int = if ratio0 > 4 {
        4
    } else {
        ratio0
    };
    let scaled = (target as int) * ratio;
    if scaled > MAX_TARGET as int {
        MAX_TARGET
    } else {
        scaled as u128
    }
}

/// What `append_block` decides, in check order: hash integrity,
/// nonemptiness, transaction execution, then the difficulty gate. On
/// acceptance: the new ledger state and the target for the next block.
pub open spec fn append_spec(
    target: u128,
    chain_len: int,
    accounts: Map<Seq<char>, AccountV>,
    b: BlockV,
) -> Result<(Map<Seq<char>, AccountV>, u128), Error> {
    let is_genesis = chain_len == 0;
    if b.hash != Some(block_hash(b)) {
        Err(Error::InvalidBlockHash)
    } else if b.transactions.len() == 0 {
        Err(Error::EmptyBlock)
    } else {
        match block_exec_spec(b.transactions, accounts, is_genesis) {
            Err((i, e)) => Err(Error::TransactionFailed(i as usize, e)),
            Ok(m) => if is_genesis {
                Ok((m, MAX_TARGET))
            } else if block_hash_value(b) >= target as int {
                Err(Error::HashAboveTarget)
            } else {
                Ok((m, retarget(target, b.transactions)))
            },
        }
    }
}

/// Block `i` of a chain is sound in place: its cached hash is its
/// content hash, exactly the first block lacks a previous-hash link,
/// and every other block's link equals its predecessor's stored hash.
pub open spec fn block_linked(chain: Seq<BlockV>, i: int) -> bool {
    &&& chain[i].hash == Some(block_hash(chain[i]))
    &&& (i == 0 ==> chain[i].prev_hash is None)
    &&& (i > 0 ==> chain[i].prev_hash is Some && chain[i].prev_hash == chain[i - 1].hash)
}

/// A chain every block of which is sound in place.
pub open spec fn chain_ok(chain: Seq<BlockV>) -> bool {
    forall|i: int| 0 <= i < chain.len() ==> block_linked(chain, i)
}

/// Law: a chain that audits clean stays clean when a block the chain
/// accepts is appended, provided its previous-hash link is the current
/// head's stored hash (absent exactly for the first block). Together
/// with `validate`'s contract: a chain built purely through successful,
/// properly linked `append_block` calls always passes `validate`.
pub proof fn lemma_append_preserves_chain_ok(
    target: u128,
    accounts: Map<Seq<char>, AccountV>,
    chain: Seq<BlockV>,
    b: BlockV,
)
    requires
        chain_ok(chain),
        append_spec(target, chain.len() as int, accounts, b) is Ok,
        chain.len() == 0 ==> b.prev_hash is None,
        chain.len() > 0 ==> b.prev_hash is Some && b.prev_hash == chain.last().hash,
    ensures
        chain_ok(chain.push(b)),
{
    assert(b.hash == Some(block_hash(b)));
    let appended = chain.push(b);
    assert forall|i: int| 0 <= i < appended.len() implies block_linked(appended, i) by {
        if i < chain.len() {
            assert(block_linked(chain, i));
            assert(appended[i] == chain[i]);
            if i > 0 {
                assert(appended[i - 1] == chain[i - 1]);
            }
        } else {
            assert(appended[i] == b);
            if i > 0 {
                assert(appended[i - 1] == chain[i - 1]);
            }
        }
    }
}

/// Execution of `txs[k..]` outside genesis fails at or before the mint
/// at index `i`.
proof fn lemma_exec_hits_mint(txs: Seq<TxV>, k: int, state: Map<Seq<char>, AccountV>, i: int)
    requires
        0 <= k <= i < txs.len(),
        txs[i].data is MintInitialSupply,
    ensures
        exec_txs_from(txs, k, state, false) is Err,
    decreases txs.len() - k,
{
    if k < i {
        match tx_exec_spec(txs[k], state, false) {
            Ok(next) => lemma_exec_hits_mint(txs, k + 1, next, i),
            Err(_) => {},
        }
    }
}

/// Law: a non-genesis block holding a `MintInitialSupply` transaction
/// anywhere is never fully executed, whatever the ledger holds: the
/// block is rejected and, by `append_block`'s contract, leaves no trace.
pub proof fn lemma_mint_block_requires_genesis(
    txs: Seq<TxV>,
    state: Map<Seq<char>, AccountV>,
    i: int,
)
    requires
        0 <= i < txs.len(),
        txs[i].data is MintInitialSupply,
    ensures
        block_exec_spec(txs, state, false) is Err,
{
    lemma_exec_hits_mint(txs, 0, state, i);
}

/// `t > m / r` says exactly whether `t * r` overshoots `m`.
proof fn lemma_mul_div_clamp(t: u128, r: u128, m: u128)
    requires
        1 <= r,
    ensures
        t > m / r ==> (t as int) * (r as int) > m as int,
        t <= m / r ==> (t as int) * (r as int) <= m as int,
{
    let ti = t as int;
    let ri = r as int;
    let mi = m as int;
    let d = mi / ri;
    lemma_fundamental_div_mod(mi, ri);
    assert(ti > d ==> ti * ri > mi) by (nonlinear_arith)
        requires
            mi == ri * d + mi % ri,
            0 <= mi % ri < ri,
            ri >= 1,
    ;
    assert(ti <= d ==> ti * ri <= mi) by (nonlinear_arith)
        requires
            mi == ri * d + mi % ri,
            0 <= mi % ri < ri,
            ri >= 1,
    ;
}

/// The single-node ledger: the accepted chain, the account table, the
/// difficulty target for the next block, and a pending-transaction
/// pool that the core logic leaves untouched.
#[derive(Debug)]
pub struct Blockchain {
    target: u128,
    pub blocks: Vec<Block>,
    accounts: Ledger,
    pub transaction_pool: Vec<Transaction>,
}

impl Blockchain {
    /// The accepted chain as block values, genesis first.
    pub closed spec fn chain(&self) -> Seq<BlockV> {
        Seq::new(self.blocks@.len(), |i: int| self.blocks@[i]@)
    }

    /// The current difficulty target (zero until genesis is accepted).
    pub closed spec fn spec_target(&self) -> u128 {
        self.target
    }

    /// The pending-transaction pool, as values.
    pub closed spec fn pool(&self) -> Seq<TxV> {
        Seq::new(self.transaction_pool@.len(), |i: int| self.transaction_pool@[i]@)
    }

    /// An empty chain over an empty ledger, with the target undefined
    /// (zero) until genesis fixes it.
    pub fn new() -> (r: Blockchain)
        ensures
            r.chain() == Seq::<BlockV>::empty(),
            r.accounts() == Map::<Seq<char>, AccountV>::empty(),
            r.spec_target() == 0,
            r.pool() == Seq::<TxV>::empty(),
    {
        let r = Blockchain {
            target: 0,
            blocks: Vec::new(),
            accounts: Ledger::new(),
            transaction_pool: Vec::new(),
        };
        proof {
            assert(r.chain() =~= Seq::<BlockV>::empty());
            assert(r.pool() =~= Seq::<TxV>::empty());
        }
        r
    }

    /// How many blocks the chain holds.
    pub fn len(&self) -> (n: usize)
        ensures
            n == self.chain().len(),
    {
        self.blocks.len()
    }

    /// The recomputed content hash of the head block, if any.
    pub fn get_last_block_hash(&self) -> (r: Option<crate::Hash>)
        ensures
            match r {
                None => self.chain().len() == 0,
                Some(h) => self.chain().len() > 0 && h@ == block_hash(self.chain().last()),
            },
    {
        if self.blocks.len() == 0 {
            None
        } else {
            Some((&self.blocks[self.blocks.len() - 1]).hash())
        }
    }

    /// The current difficulty target.
    pub fn target(&self) -> (t: u128)
        ensures
            t == self.spec_target(),
    {
        self.target
    }

    /// Admit a block: check its hash, execute its transactions with
    /// all-or-nothing rollback, apply the difficulty gate, retarget,
    /// and append. On any rejection nothing of the state changes; the
    /// result is exactly what `append_spec` decides.
    pub fn append_block(&mut self, block: Block) -> (r: Result<(), Error>)
        requires
            old(self).chain().len() > 0 && block@.transactions.len() > 0
                ==> block@.transactions.last().timestamp
                >= block@.transactions.first().timestamp,
        ensures
            match r {
                Ok(()) => append_spec(
                    old(self).spec_target(),
                    old(self).chain().len() as int,
                    old(self).accounts(),
                    block@,
                ) == Ok::<(Map<Seq<char>, AccountV>, u128), Error>(
                    (final(self).accounts(), final(self).spec_target()),
                ) && final(self).chain() == old(self).chain().push(block@) && final(self).pool()
                    == old(self).pool(),
                Err(e) => append_spec(
                    old(self).spec_target(),
                    old(self).chain().len() as int,
                    old(self).accounts(),
                    block@,
                ) == Err::<(Map<Seq<char>, AccountV>, u128), Error>(e) && final(self).chain()
                    == old(self).chain() && final(self).accounts() == old(self).accounts()
                    && final(self).spec_target() == old(self).spec_target() && final(self).pool()
                    == old(self).pool(),
            },
    {
        let ghost bv = block@;
        if !block.verify() {
            return Err(Error::InvalidBlockHash);
        }
        let is_genesis = self.blocks.len() == 0;
        if block.transactions.len() == 0 {
            return Err(Error::EmptyBlock);
        }
        let ghost pre_accounts = self.accounts@;
        let backup = self.accounts.snapshot();
        let mut i: usize = 0;
        while i < block.transactions.len()
            invariant
                i <= bv.transactions.len(),
                bv == block@,
                bv.transactions.len() == block.transactions@.len(),
                bv.transactions.len() > 0,
                bv.hash == Some(block_hash(bv)),
                old(self).chain().len() > 0 ==> bv.transactions.last().timestamp
                    >= bv.transactions.first().timestamp,
                is_genesis == (old(self).chain().len() == 0),
                backup@ == pre_accounts,
                pre_accounts == old(self).accounts(),
                exec_txs_from(bv.transactions, i as int, self.accounts@, is_genesis)
                    == block_exec_spec(bv.transactions, pre_accounts, is_genesis),
                self.blocks == old(self).blocks,
                self.target == old(self).target,
                self.transaction_pool == old(self).transaction_pool,
            decreases bv.transactions.len() - i,
        {
            proof {
                assert(bv.transactions[i as int] == block.transactions@[i as int]@);
            }
            match (&block.transactions[i]).execute(&mut self.accounts, is_genesis) {
                Ok(()) => {
                    i += 1;
                },
                Err(e) => {
                    proof {
                        assert(tx_exec_spec(bv.transactions[i as int], self.accounts@, is_genesis)
                            == Err::<Map<Seq<char>, AccountV>, TxError>(e));
                        assert(exec_txs_from(bv.transactions, i as int, self.accounts@, is_genesis)
                            == Err::<Map<Seq<char>, AccountV>, (int, TxError)>((i as int, e)));
                    }
                    self.accounts = backup;
                    proof {
                        assert(self.chain() =~= old(self).chain());
                        assert(self.pool() =~= old(self).pool());
                    }
                    return Err(Error::TransactionFailed(i, e));
                },
            }
        }
        proof {
            assert(block_exec_spec(bv.transactions, pre_accounts, is_genesis) == Ok::<
                Map<Seq<char>, AccountV>,
                (int, TxError),
            >(self.accounts@));
        }
        if is_genesis {
            self.target = MAX_TARGET;
        } else {
            let v = block.pow_value();
            if v >= self.target {
                self.accounts = backup;
                proof {
                    assert(self.chain() =~= old(self).chain());
                    assert(self.pool() =~= old(self).pool());
                }
                return Err(Error::HashAboveTarget);
            }
            let count = block.transactions.len();
            let first_ts = (&block.transactions[0]).timestamp;
            let last_ts = (&block.transactions[count - 1]).timestamp;
            proof {
                assert(bv.transactions.first() == block.transactions@[0]@);
                assert(bv.transactions.last() == block.transactions@[count - 1]@);
            }
            let actual = last_ts - first_ts;
            let expected: u128 = (count as u128) * 600;
            let ratio0 = actual / expected;
            let ratio = if ratio0 > 4 {
                4u128
            } else {
                ratio0
            };
            let new_target = if ratio == 0 {
                0u128
            } else if self.target > MAX_TARGET / ratio {
                proof {
                    lemma_mul_div_clamp(self.target, ratio, MAX_TARGET);
                }
                MAX_TARGET
            } else {
                proof {
                    lemma_mul_div_clamp(self.target, ratio, MAX_TARGET);
                }
                self.target * ratio
            };
            proof {
                assert(new_target == retarget(self.target, bv.transactions));
            }
            self.target = new_target;
        }
        self.blocks.push(block);
        proof {
            assert(self.chain() =~= old(self).chain().push(bv));
            assert(self.pool() =~= old(self).pool());
        }
        Ok(())
    }

    /// Audit the accepted chain: recheck every block's cached hash and
    /// the previous-hash links. `Ok` exactly when the whole chain is
    /// sound; otherwise the position of the first offending block.
    pub fn validate(&self) -> (r: Result<(), Error>)
        ensures
            match r {
                Ok(()) => chain_ok(self.chain()),
                Err(e) => match e {
                    Error::ChainCorrupted(i) => i < self.chain().len() && !block_linked(
                        self.chain(),
                        i as int,
                    ) && forall|j: int| 0 <= j < i ==> block_linked(self.chain(), j),
                    _ => false,
                },
            },
    {
        let mut i: usize = 0;
        while i < self.blocks.len()
            invariant
                i <= self.chain().len(),
                self.chain().len() == self.blocks@.len(),
                forall|j: int| 0 <= j < i ==> block_linked(self.chain(), j),
            decreases self.blocks@.len() - i,
        {
            let block = &self.blocks[i];
            proof {
                assert(self.chain()[i as int] == self.blocks@[i as int]@);
            }
            if !block.verify() {
                return Err(Error::ChainCorrupted(i));
            }
            if i == 0 {
                if block.prev_hash.is_some() {
                    return Err(Error::ChainCorrupted(i));
                }
            } else {
                proof {
                    assert(self.chain()[i as int - 1] == self.blocks@[i as int - 1]@);
                }
                let linked = match (&block.prev_hash, &self.blocks[i - 1].hash) {
                    (Some(link), Some(stored)) => *link == *stored,
                    _ => false,
                };
                if !linked {
                    return Err(Error::ChainCorrupted(i));
                }
            }
            i += 1;
        }
        Ok(())
    }
}

impl WorldState for Blockchain {
    closed spec fn accounts(&self) -> Map<Seq<char>, AccountV> {
        self.accounts@
    }

    fn create_account(
        &mut self,
        account_id: AccountId,
        account_type: AccountType,
        public_key: PublicKey,
    ) -> (r: Result<(), TxError>) {
        self.accounts.create_account(account_id, account_type, public_key)
    }

    fn get_account_by_id(&self, account_id: AccountId) -> (r: Option<&Account>) {
        self.accounts.get_account_by_id(account_id)
    }

    fn set_account_balance(&mut self, account_id: &AccountId, balance: Balance) -> (r: Result<
        (),
        TxError,
    >) {
        self.accounts.set_account_balance(account_id, balance)
    }
}

} // verus!
