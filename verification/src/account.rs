//! Accounts: the records the ledger maps account identifiers to.

use vstd::prelude::*;
use crate::{Balance, PublicKey};

verus! {

/// The category of an account. Only user accounts exist today.
#[derive(Debug, Clone, Copy, PartialEq, Eq, Structural)]
pub enum AccountType {
    User,
}

/// A ledger record: the account's category, its registered public key,
/// and its balance.
#[derive(Debug)]
pub struct Account {
    pub account_type: AccountType,
    pub public_key: PublicKey,
    pub balance: Balance,
}

/// The mathematical value of an `Account`.
pub struct AccountV {
    pub account_type: AccountType,
    pub public_key: Seq<u8>,
    pub balance: u128,
}

impl View for Account {
    type V = AccountV;

    open spec fn view(&self) -> AccountV {
        AccountV {
            account_type: self.account_type,
            public_key: self.public_key@,
            balance: self.balance,
        }
    }
}

impl Account {
    /// A fresh zero-balance account.
    pub fn new(account_type: AccountType, public_key: PublicKey) -> (r: Account)
        ensures
            r@ == (AccountV { account_type, public_key: public_key@, balance: 0 }),
    {
        Account { account_type, public_key, balance: 0 }
    }
}

impl Clone for Account {
    fn clone(&self) -> (r: Self)
        ensures
            r@ == self@,
    {
        Account {
            account_type: self.account_type,
            public_key: crate::encoding::clone_bytes(&self.public_key),
            balance: self.balance,
        }
    }
}

} // verus!
