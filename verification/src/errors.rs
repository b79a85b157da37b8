//! Closed error taxonomy for the ledger core.
//!
//! Transaction-level failures (`TxError`) are raised while a single
//! transaction executes against the ledger; block-level failures (`Error`)
//! are what `Blockchain::append_block` and `Blockchain::validate` report.
//! A transaction failure inside a block is wrapped as
//! `Error::TransactionFailed` carrying the index of the offending
//! transaction and its cause.

use vstd::prelude::*;

verus! {

/// Why a single transaction was rejected by the ledger state machine.
#[derive(Debug, Clone, Copy, PartialEq, Eq, Structural)]
pub enum TxError {
    /// `CreateAccount`: the account id is already taken.
    AccountExists,
    /// `MintInitialSupply` appeared outside the genesis block.
    NotGenesis,
    /// `MintInitialSupply`: the target account does not exist.
    UnknownAccount,
    /// `Transfer`: the transaction carries no sender.
    MissingSender,
    /// `Transfer`: the sender account does not exist.
    UnknownSender,
    /// `Transfer`: the receiver account does not exist.
    UnknownReceiver,
    /// `Transfer`: the transaction carries no signature.
    Unsigned,
    /// `Transfer`: the signature does not verify against the sender's
    /// registered public key over the transaction's own hash.
    BadSignature,
    /// `Transfer`: the sender's balance is smaller than the amount.
    InsufficientBalance,
    /// Crediting the amount would overflow the 128-bit balance range.
    Overflow,
}

/// Why a block was rejected, or where a chain audit found corruption.
#[derive(Debug, Clone, Copy, PartialEq, Eq, Structural)]
pub enum Error {
    /// The block's cached hash does not match its recomputed content hash.
    InvalidBlockHash,
    /// The block carries no transactions.
    EmptyBlock,
    /// A transaction failed; carries its index in the block and the cause.
    /// No effect of the block is visible after this rejection.
    TransactionFailed(usize, TxError),
    /// The block's hash, read as an integer, did not fall below the
    /// current difficulty target.
    HashAboveTarget,
    /// `validate`: the chain is corrupted; carries the position (index
    /// from the genesis block) of the first offending block.
    ChainCorrupted(usize),
}

} // verus!
