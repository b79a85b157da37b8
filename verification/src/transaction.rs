//! Transactions: immutable intents against the ledger, their content
//! hash, and their execution as a pure state transition.

use vstd::prelude::*;
use vstd::utf8::encode_utf8;
use vstd::string::StrSliceExecFns;
use crate::account::{AccountType, AccountV};
use crate::crypto::{blake2s_digest, blake2s_of, hex_encode, sig_verify, verify_signature};
use crate::encoding::{
    clone_bytes, hex_of, opt_str_encoding, push_bytes, push_str, push_u128_be, str_encoding,
    u128_be_bytes,
};
use crate::errors::TxError;
use crate::traits::{Hashable, WorldState};
use crate::{AccountId, Balance, PublicKey, Timestamp};

verus! {

/// What a transaction asks of the ledger.
#[derive(Debug)]
pub enum TransactionData {
    /// Register `AccountId` with the given public key.
    CreateAccount(AccountId, PublicKey),
    /// Create initial supply; a genesis-only privilege.
    MintInitialSupply { to: AccountId, amount: Balance },
    /// Move funds from the transaction's sender to `to`.
    Transfer { to: AccountId, amount: Balance },
}

/// The mathematical value of `TransactionData`.
pub enum TxDataV {
    CreateAccount(Seq<char>, Seq<u8>),
    MintInitialSupply { to: Seq<char>, amount: u128 },
    Transfer { to: Seq<char>, amount: u128 },
}

impl View for TransactionData {
    type V = TxDataV;

    open spec fn view(&self) -> TxDataV {
        match self {
            TransactionData::CreateAccount(id, key) => TxDataV::CreateAccount(id@, key@),
            TransactionData::MintInitialSupply { to, amount } => TxDataV::MintInitialSupply {
                to: to@,
                amount: *amount,
            },
            TransactionData::Transfer { to, amount } => TxDataV::Transfer {
                to: to@,
                amount: *amount,
            },
        }
    }
}

impl Clone for TransactionData {
    fn clone(&self) -> (r: Self)
        ensures
            r@ == self@,
    {
        match self {
            TransactionData::CreateAccount(id, key) => TransactionData::CreateAccount(
                id.clone(),
                clone_bytes(key),
            ),
            TransactionData::MintInitialSupply { to, amount } => {
                TransactionData::MintInitialSupply { to: to.clone(), amount: *amount }
            },
            TransactionData::Transfer { to, amount } => {
                TransactionData::Transfer { to: to.clone(), amount: *amount }
            },
        }
    }
}

/// A signed intent. The content hash covers `(nonce, timestamp, from,
/// data)` and excludes the signature, so the signature attests to that
/// exact hash.
#[derive(Debug)]
pub struct Transaction {
    pub nonce: u128,
    pub timestamp: Timestamp,
    pub from: Option<AccountId>,
    pub data: TransactionData,
    pub signature: Option<crate::Signature>,
}

/// The mathematical value of a `Transaction`.
pub struct TxV {
    pub nonce: u128,
    pub timestamp: u128,
    pub from: Option<Seq<char>>,
    pub data: TxDataV,
    pub signature: Option<Seq<u8>>,
}

impl View for Transaction {
    type V = TxV;

    open spec fn view(&self) -> TxV {
        TxV {
            nonce: self.nonce,
            timestamp: self.timestamp,
            from: self.from.deep_view(),
            data: self.data@,
            signature: self.signature.deep_view(),
        }
    }
}

impl Clone for Transaction {
    fn clone(&self) -> (r: Self)
        ensures
            r@ == self@,
    {
        Transaction {
            nonce: self.nonce,
            timestamp: self.timestamp,
            from: match &self.from {
                Some(id) => Some(id.clone()),
                None => None,
            },
            data: self.data.clone(),
            signature: match &self.signature {
                Some(sig) => Some(clone_bytes(sig)),
                None => None,
            },
        }
    }
}

/// The byte encoding of the data variant: a tag, then its fields.
pub open spec fn tx_data_encoding(d: TxDataV) -> Seq<u8> {
    match d {
        TxDataV::CreateAccount(id, key) => seq![0u8] + str_encoding(id) + u128_be_bytes(
            key.len() as u128,
        ) + key,
        TxDataV::MintInitialSupply { to, amount } => seq![1u8] + str_encoding(to) + u128_be_bytes(
            amount,
        ),
        TxDataV::Transfer { to, amount } => seq![2u8] + str_encoding(to) + u128_be_bytes(amount),
    }
}

/// The hashing payload of a transaction: `(nonce, timestamp, from,
/// data)`, signature excluded.
pub open spec fn tx_encoding(t: TxV) -> Seq<u8> {
    u128_be_bytes(t.nonce) + u128_be_bytes(t.timestamp) + opt_str_encoding(t.from)
        + tx_data_encoding(t.data)
}

/// The full encoding: the hashing payload, then the signature, if any.
/// This is what a block's content hash covers per transaction.
pub open spec fn tx_full_encoding(t: TxV) -> Seq<u8> {
    tx_encoding(t) + (match t.signature {
        None => seq![0u8],
        Some(sig) => seq![1u8] + u128_be_bytes(sig.len() as u128) + sig,
    })
}

/// A transaction's content hash: the hex form of the digest of its
/// hashing payload.
pub open spec fn tx_hash(t: TxV) -> Seq<char> {
    hex_of(blake2s_of(tx_encoding(t)))
}

/// The outcome of executing one transaction against ledger state `pre`:
/// either the state after, or the error, exactly as `execute` decides it.
pub open spec fn tx_exec_spec(t: TxV, pre: Map<Seq<char>, AccountV>, is_genesis: bool) -> Result<
    Map<Seq<char>, AccountV>,
    TxError,
> {
    match t.data {
        TxDataV::CreateAccount(id, key) => if pre.contains_key(id) {
            Err(TxError::AccountExists)
        } else {
            Ok(
                pre.insert(
                    id,
                    AccountV { account_type: AccountType::User, public_key: key, balance: 0 },
                ),
            )
        },
        TxDataV::MintInitialSupply { to, amount } => if !is_genesis {
            Err(TxError::NotGenesis)
        } else if !pre.contains_key(to) {
            Err(TxError::UnknownAccount)
        } else if pre[to].balance + amount > u128::MAX {
            Err(TxError::Overflow)
        } else {
            Ok(
                pre.insert(
                    to,
                    AccountV {
                        account_type: pre[to].account_type,
                        public_key: pre[to].public_key,
                        balance: (pre[to].balance + amount) as u128,
                    },
                ),
            )
        },
        TxDataV::Transfer { to, amount } => match t.from {
            None => Err(TxError::MissingSender),
            Some(from) => if !pre.contains_key(from) {
                Err(TxError::UnknownSender)
            } else if !pre.contains_key(to) {
                Err(TxError::UnknownReceiver)
            } else {
                match t.signature {
                    None => Err(TxError::Unsigned),
                    Some(sig) => if !sig_verify(
                        pre[from].public_key,
                        encode_utf8(tx_hash(t)),
                        sig,
                    ) {
                        Err(TxError::BadSignature)
                    } else if pre[from].balance < amount {
                        Err(TxError::InsufficientBalance)
                    } else if pre[to].balance + amount > u128::MAX {
                        Err(TxError::Overflow)
                    } else {
                        let debited = pre.insert(
                            from,
                            AccountV {
                                account_type: pre[from].account_type,
                                public_key: pre[from].public_key,
                                balance: (pre[from].balance - amount) as u128,
                            },
                        );
                        Ok(
                            debited.insert(
                                to,
                                AccountV {
                                    account_type: debited[to].account_type,
                                    public_key: debited[to].public_key,
                                    balance: (debited[to].balance + amount) as u128,
                                },
                            ),
                        )
                    },
                }
            },
        },
    }
}

impl Transaction {
    /// A fresh unsigned transaction with nonce zero.
    pub fn new(data: TransactionData, from: Option<AccountId>, timestamp: Timestamp) -> (r:
        Transaction)
        ensures
            r@ == (TxV {
                nonce: 0,
                timestamp,
                from: from.deep_view(),
                data: data@,
                signature: None,
            }),
    {
        Transaction { nonce: 0, timestamp, from, data, signature: None }
    }

    /// Attach (or detach) a signature; every other field is kept.
    pub fn sign(&mut self, signature: Option<crate::Signature>)
        ensures
            final(self)@ == (TxV { signature: signature.deep_view(), ..old(self)@ }),
    {
        self.signature = signature;
    }

    /// The hashing payload, built exactly as `tx_encoding` states.
    fn encoded_bytes(&self) -> (r: Vec<u8>)
        ensures
            r@ == tx_encoding(self@),
    {
        let mut out: Vec<u8> = Vec::new();
        push_u128_be(&mut out, self.nonce);
        push_u128_be(&mut out, self.timestamp);
        match &self.from {
            None => out.push(0u8),
            Some(from) => {
                out.push(1u8);
                push_str(&mut out, from);
            },
        }
        match &self.data {
            TransactionData::CreateAccount(id, key) => {
                out.push(0u8);
                push_str(&mut out, id);
                push_u128_be(&mut out, key.len() as u128);
                push_bytes(&mut out, key);
            },
            TransactionData::MintInitialSupply { to, amount } => {
                out.push(1u8);
                push_str(&mut out, to);
                push_u128_be(&mut out, *amount);
            },
            TransactionData::Transfer { to, amount } => {
                out.push(2u8);
                push_str(&mut out, to);
                push_u128_be(&mut out, *amount);
            },
        }
        proof {
            assert(out@ =~= tx_encoding(self@));
        }
        out
    }

    /// The full encoding, signature included.
    pub(crate) fn full_encoded_bytes(&self) -> (r: Vec<u8>)
        ensures
            r@ == tx_full_encoding(self@),
    {
        let mut out = self.encoded_bytes();
        match &self.signature {
            None => out.push(0u8),
            Some(sig) => {
                out.push(1u8);
                push_u128_be(&mut out, sig.len() as u128);
                push_bytes(&mut out, sig);
            },
        }
        proof {
            assert(out@ =~= tx_full_encoding(self@));
        }
        out
    }

    /// Execute this transaction against `state`. On success the state
    /// steps exactly as `tx_exec_spec` says; on failure the state is
    /// unchanged and the error is exactly the one `tx_exec_spec` gives.
    pub fn execute<T: WorldState>(&self, state: &mut T, is_genesis: bool) -> (r: Result<
        (),
        TxError,
    >)
        ensures
            match r {
                Ok(()) => tx_exec_spec(self@, old(state).accounts(), is_genesis) == Ok::<
                    Map<Seq<char>, AccountV>,
                    TxError,
                >(final(state).accounts()),
                Err(e) => tx_exec_spec(self@, old(state).accounts(), is_genesis) == Err::<
                    Map<Seq<char>, AccountV>,
                    TxError,
                >(e) && final(state).accounts() == old(state).accounts(),
            },
    {
        match &self.data {
            TransactionData::CreateAccount(account_id, public_key) => {
                state.create_account(account_id.clone(), AccountType::User, clone_bytes(public_key))
            },
            TransactionData::MintInitialSupply { to, amount } => {
                if !is_genesis {
                    return Err(TxError::NotGenesis);
                }
                let balance = match state.get_account_by_id(to.clone()) {
                    Some(account) => account.balance,
                    None => {
                        return Err(TxError::UnknownAccount);
                    },
                };
                if *amount > u128::MAX - balance {
                    return Err(TxError::Overflow);
                }
                match state.set_account_balance(to, balance + *amount) {
                    Ok(()) => Ok(()),
                    Err(e) => {
                        proof {
                            assert(false);
                        }
                        Err(e)
                    },
                }
            },
            TransactionData::Transfer { to, amount } => {
                let amount = *amount;
                let from_id = match &self.from {
                    Some(id) => id,
                    None => {
                        return Err(TxError::MissingSender);
                    },
                };
                let (sender_key, sender_balance) = match state.get_account_by_id(from_id.clone()) {
                    Some(account) => (clone_bytes(&account.public_key), account.balance),
                    None => {
                        return Err(TxError::UnknownSender);
                    },
                };
                let receiver_balance = match state.get_account_by_id(to.clone()) {
                    Some(account) => account.balance,
                    None => {
                        return Err(TxError::UnknownReceiver);
                    },
                };
                let sig = match &self.signature {
                    Some(sig) => sig,
                    None => {
                        return Err(TxError::Unsigned);
                    },
                };
                let own_hash = self.hash();
                let message = own_hash.as_str().as_bytes_vec();
                proof {
                    assert(message@ == encode_utf8(tx_hash(self@)));
                    assert(self@.signature == Some(sig@));
                    assert(self@.from == Some(from_id@));
                }
                if !verify_signature(&sender_key, &message, sig) {
                    return Err(TxError::BadSignature);
                }
                if sender_balance < amount {
                    return Err(TxError::InsufficientBalance);
                }
                if amount > u128::MAX - receiver_balance {
                    return Err(TxError::Overflow);
                }
                match state.set_account_balance(from_id, sender_balance - amount) {
                    Ok(()) => (),
                    Err(_) => {
                        proof {
                            assert(false);
                        }
                    },
                }
                let receiver_balance2 = match state.get_account_by_id(to.clone()) {
                    Some(account) => account.balance,
                    None => {
                        proof {
                            assert(false);
                        }
                        return Err(TxError::UnknownReceiver);
                    },
                };
                match state.set_account_balance(to, receiver_balance2 + amount) {
                    Ok(()) => (),
                    Err(_) => {
                        proof {
                            assert(false);
                        }
                    },
                }
                Ok(())
            },
        }
    }
}

impl Hashable for Transaction {
    open spec fn hash_spec(&self) -> Seq<char> {
        tx_hash(self@)
    }

    fn hash(&self) -> (r: crate::Hash) {
        let bytes = self.encoded_bytes();
        let digest = blake2s_digest(&bytes);
        hex_encode(&digest)
    }
}

/// Law: a `MintInitialSupply` transaction outside the genesis block is
/// rejected with the genesis-only error, whatever the ledger holds.
pub proof fn lemma_mint_requires_genesis(t: TxV, pre: Map<Seq<char>, AccountV>)
    requires
        t.data is MintInitialSupply,
    ensures
        tx_exec_spec(t, pre, false) == Err::<Map<Seq<char>, AccountV>, TxError>(
            TxError::NotGenesis,
        ),
{
}

/// Law: a transfer between existing accounts whose signature does not
/// verify against the sender's registered public key over the
/// transaction's own hash is rejected as `BadSignature`.
pub proof fn lemma_transfer_requires_valid_signature(
    t: TxV,
    pre: Map<Seq<char>, AccountV>,
    is_genesis: bool,
)
    requires
        ({
            &&& t.data matches TxDataV::Transfer { to, amount }
            &&& t.from matches Some(from)
            &&& pre.contains_key(from)
            &&& pre.contains_key(to)
            &&& t.signature matches Some(sig)
            &&& !sig_verify(pre[from].public_key, encode_utf8(tx_hash(t)), sig)
        }),
    ensures
        tx_exec_spec(t, pre, is_genesis) == Err::<Map<Seq<char>, AccountV>, TxError>(
            TxError::BadSignature,
        ),
{
}

/// Law: a correctly signed transfer for more than the sender's balance
/// is rejected as `InsufficientBalance`.
pub proof fn lemma_transfer_requires_funds(
    t: TxV,
    pre: Map<Seq<char>, AccountV>,
    is_genesis: bool,
)
    requires
        ({
            &&& t.data matches TxDataV::Transfer { to, amount }
            &&& t.from matches Some(from)
            &&& pre.contains_key(from)
            &&& pre.contains_key(to)
            &&& t.signature matches Some(sig)
            &&& sig_verify(pre[from].public_key, encode_utf8(tx_hash(t)), sig)
            &&& pre[from].balance < amount
        }),
    ensures
        tx_exec_spec(t, pre, is_genesis) == Err::<Map<Seq<char>, AccountV>, TxError>(
            TxError::InsufficientBalance,
        ),
{
}

} // verus!
