//! A minimal single-node ledger: an append-only chain of blocks, each
//! carrying signed transactions that mutate an account-balance table.
//!
//! The core is the ledger state machine: block admission (hash-chain
//! linking, a proof-of-work difficulty gate, difficulty retargeting) and
//! transaction execution with all-or-nothing per-block rollback.

use vstd::prelude::*;

pub mod account;
pub mod block;
pub mod blockchain;
pub mod crypto;
pub mod encoding;
pub mod errors;
pub mod ledger;
pub mod traits;
pub mod transaction;
pub mod utils;

pub use account::Account;
pub use account::AccountType;
pub use block::Block;
pub use blockchain::Blockchain;
pub use blockchain::MAX_TARGET;
pub use errors::Error;
pub use errors::TxError;
pub use ledger::Ledger;
pub use traits::Hashable;
pub use traits::WorldState;
pub use transaction::Transaction;
pub use transaction::TransactionData;
pub use utils::append_block_with_tx;

verus! {

/// Opaque unique account identifier.
pub type AccountId = String;

/// An account balance; never negative by construction.
pub type Balance = u128;

/// A transaction timestamp, seconds since some fixed epoch.
pub type Timestamp = u128;

/// A content hash, as a lowercase hex string.
pub type Hash = String;

/// A signature-scheme public key, as raw bytes.
pub type PublicKey = Vec<u8>;

/// A detached signature, as raw bytes.
pub type Signature = Vec<u8>;

} // verus!
