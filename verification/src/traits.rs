//! The two capability interfaces of the core: content hashing and the
//! world state (account table) a transaction executes against.

use vstd::prelude::*;
use crate::account::{Account, AccountType, AccountV};
use crate::errors::TxError;
use crate::{AccountId, Balance, PublicKey};

verus! {

/// A value with a deterministic content hash, shown as lowercase hex.
pub trait Hashable {
    /// The mathematical value of this item's content hash.
    spec fn hash_spec(&self) -> Seq<char>;

    /// Compute the content hash.
    fn hash(&self) -> (r: crate::Hash)
        ensures
            r@ == self.hash_spec(),
    ;
}

/// The account table, seen as a map from account id to record. This is
/// the only interface through which transaction execution reads or
/// mutates ledger state.
pub trait WorldState: Sized {
    /// The table as a mathematical map.
    spec fn accounts(&self) -> Map<Seq<char>, AccountV>;

    /// Insert a fresh zero-balance account under `account_id`; fails
    /// with `AccountExists` exactly when the id is already taken.
    fn create_account(
        &mut self,
        account_id: AccountId,
        account_type: AccountType,
        public_key: PublicKey,
    ) -> (r: Result<(), TxError>)
        ensures
            match r {
                Ok(()) => !old(self).accounts().contains_key(account_id@)
                    && final(self).accounts() == old(self).accounts().insert(
                    account_id@,
                    (AccountV { account_type, public_key: public_key@, balance: 0 }),
                ),
                Err(e) => e == TxError::AccountExists
                    && old(self).accounts().contains_key(account_id@)
                    && final(self).accounts() == old(self).accounts(),
            },
    ;

    /// Look an account up by id; `None` exactly when the id is absent.
    fn get_account_by_id(&self, account_id: AccountId) -> (r: Option<&Account>)
        ensures
            match r {
                Some(account) => self.accounts().contains_key(account_id@) && account@
                    == self.accounts()[account_id@],
                None => !self.accounts().contains_key(account_id@),
            },
    ;

    /// Overwrite the balance of an existing account; fails with
    /// `UnknownAccount` exactly when the id is absent.
    fn set_account_balance(&mut self, account_id: &AccountId, balance: Balance) -> (r: Result<
        (),
        TxError,
    >)
        ensures
            match r {
                Ok(()) => old(self).accounts().contains_key(account_id@)
                    && final(self).accounts() == old(self).accounts().insert(
                    account_id@,
                    (AccountV {
                        account_type: old(self).accounts()[account_id@].account_type,
                        public_key: old(self).accounts()[account_id@].public_key,
                        balance,
                    }),
                ),
                Err(e) => e == TxError::UnknownAccount
                    && !old(self).accounts().contains_key(account_id@)
                    && final(self).accounts() == old(self).accounts(),
            },
    ;
}

} // verus!
