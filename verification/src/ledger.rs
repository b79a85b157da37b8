//! The concrete account table: a `WorldState` backed by a vector of
//! `(id, account)` entries with pairwise distinct ids, seen as a map.

use vstd::prelude::*;
use crate::account::{Account, AccountType, AccountV};
use crate::encoding::clone_bytes;
use crate::errors::TxError;
use crate::traits::WorldState;
use crate::{AccountId, Balance, PublicKey};

verus! {

/// The map an entry sequence denotes; later entries would win, but the
/// table keeps its ids pairwise distinct.
spec fn map_of(entries: Seq<(AccountId, Account)>) -> Map<Seq<char>, AccountV>
    decreases entries.len(),
{
    if entries.len() == 0 {
        Map::empty()
    } else {
        map_of(entries.drop_last()).insert(entries.last().0@, entries.last().1@)
    }
}

/// The authoritative account table. Created empty; accounts are created
/// once and never deleted; balances change only through
/// `set_account_balance`.
#[derive(Debug)]
pub struct Ledger {
    entries: Vec<(AccountId, Account)>,
}

impl View for Ledger {
    type V = Map<Seq<char>, AccountV>;

    closed spec fn view(&self) -> Map<Seq<char>, AccountV> {
        map_of(self.entries@)
    }
}

/// With pairwise distinct ids, entry `i` is what the map holds at its id.
proof fn lemma_map_of_found(entries: Seq<(AccountId, Account)>, i: int)
    requires
        forall|p: int, q: int|
            0 <= p < q < entries.len() ==> entries[p].0@ != entries[q].0@,
        0 <= i < entries.len(),
    ensures
        map_of(entries).contains_key(entries[i].0@),
        map_of(entries)[entries[i].0@] == entries[i].1@,
    decreases entries.len(),
{
    if i < entries.len() - 1 {
        lemma_map_of_found(entries.drop_last(), i);
    }
}

/// An id no entry carries is not in the map.
proof fn lemma_map_of_absent(entries: Seq<(AccountId, Account)>, id: Seq<char>)
    requires
        forall|i: int| 0 <= i < entries.len() ==> entries[i].0@ != id,
    ensures
        !map_of(entries).contains_key(id),
    decreases entries.len(),
{
    if entries.len() > 0 {
        lemma_map_of_absent(entries.drop_last(), id);
    }
}

/// Replacing entry `i` by one with the same id updates the map at that id.
proof fn lemma_map_of_update(entries: Seq<(AccountId, Account)>, i: int, p: (AccountId, Account))
    requires
        forall|x: int, y: int|
            0 <= x < y < entries.len() ==> entries[x].0@ != entries[y].0@,
        0 <= i < entries.len(),
        p.0@ == entries[i].0@,
    ensures
        map_of(entries.update(i, p)) == map_of(entries).insert(p.0@, p.1@),
    decreases entries.len(),
{
    let updated = entries.update(i, p);
    if i == entries.len() - 1 {
        assert(updated.drop_last() =~= entries.drop_last());
        assert(map_of(updated) =~= map_of(entries).insert(p.0@, p.1@));
    } else {
        assert(updated.drop_last() =~= entries.drop_last().update(i, p));
        lemma_map_of_update(entries.drop_last(), i, p);
        assert(updated.last() == entries.last());
        assert(entries[i].0@ != entries.last().0@);
        assert(map_of(updated) =~= map_of(entries).insert(p.0@, p.1@));
    }
}

/// Two entry sequences equal view-by-view denote the same map.
proof fn lemma_map_of_congruent(a: Seq<(AccountId, Account)>, b: Seq<(AccountId, Account)>)
    requires
        a.len() == b.len(),
        forall|i: int| 0 <= i < a.len() ==> a[i].0@ == b[i].0@ && a[i].1@ == b[i].1@,
    ensures
        map_of(a) == map_of(b),
    decreases a.len(),
{
    if a.len() > 0 {
        lemma_map_of_congruent(a.drop_last(), b.drop_last());
        assert(map_of(a) =~= map_of(b));
    }
}

impl Ledger {
    /// Ids are pairwise distinct, so the entry order carries no meaning.
    #[verifier::type_invariant]
    spec fn wf(self) -> bool {
        forall|i: int, j: int|
            0 <= i < j < self.entries@.len() ==> self.entries@[i].0@ != self.entries@[j].0@
    }

    /// An empty table.
    pub fn new() -> (r: Ledger)
        ensures
            r@ == Map::<Seq<char>, AccountV>::empty(),
    {
        Ledger { entries: Vec::new() }
    }

    /// The index holding `account_id`, if any.
    fn find_index(&self, account_id: &AccountId) -> (r: Option<usize>)
        ensures
            match r {
                Some(i) => i < self.entries@.len() && self.entries@[i as int].0@ == account_id@,
                None => forall|i: int|
                    0 <= i < self.entries@.len() ==> self.entries@[i].0@ != account_id@,
            },
    {
        let mut i: usize = 0;
        while i < self.entries.len()
            invariant
                i <= self.entries@.len(),
                forall|j: int| 0 <= j < i ==> self.entries@[j].0@ != account_id@,
            decreases self.entries@.len() - i,
        {
            if self.entries[i].0 == *account_id {
                return Some(i);
            }
            i += 1;
        }
        None
    }

    /// A full copy of the table, for block-level rollback.
    pub fn snapshot(&self) -> (r: Ledger)
        ensures
            r@ == self@,
    {
        proof {
            use_type_invariant(self);
        }
        let mut entries: Vec<(AccountId, Account)> = Vec::new();
        let mut i: usize = 0;
        while i < self.entries.len()
            invariant
                i <= self.entries@.len(),
                entries@.len() == i,
                forall|j: int|
                    0 <= j < i ==> entries@[j].0@ == self.entries@[j].0@ && entries@[j].1@
                        == self.entries@[j].1@,
            decreases self.entries@.len() - i,
        {
            let pair = &self.entries[i];
            entries.push((pair.0.clone(), pair.1.clone()));
            i += 1;
        }
        proof {
            lemma_map_of_congruent(entries@, self.entries@);
        }
        Ledger { entries }
    }
}

impl WorldState for Ledger {
    open spec fn accounts(&self) -> Map<Seq<char>, AccountV> {
        self@
    }

    fn create_account(
        &mut self,
        account_id: AccountId,
        account_type: AccountType,
        public_key: PublicKey,
    ) -> (r: Result<(), TxError>) {
        proof {
            use_type_invariant(&*self);
        }
        match self.find_index(&account_id) {
            Some(i) => {
                proof {
                    lemma_map_of_found(self.entries@, i as int);
                }
                Err(TxError::AccountExists)
            },
            None => {
                proof {
                    lemma_map_of_absent(self.entries@, account_id@);
                }
                let account = Account::new(account_type, public_key);
                let mut entries: Vec<(AccountId, Account)> = Vec::new();
                core::mem::swap(&mut entries, &mut self.entries);
                entries.push((account_id, account));
                self.entries = entries;
                proof {
                    assert(self.entries@.drop_last() =~= old(self).entries@);
                }
                Ok(())
            },
        }
    }

    fn get_account_by_id(&self, account_id: AccountId) -> (r: Option<&Account>) {
        proof {
            use_type_invariant(self);
        }
        match self.find_index(&account_id) {
            Some(i) => {
                proof {
                    lemma_map_of_found(self.entries@, i as int);
                }
                Some(&self.entries[i].1)
            },
            None => {
                proof {
                    lemma_map_of_absent(self.entries@, account_id@);
                }
                None
            },
        }
    }

    fn set_account_balance(&mut self, account_id: &AccountId, balance: Balance) -> (r: Result<
        (),
        TxError,
    >) {
        proof {
            use_type_invariant(&*self);
        }
        match self.find_index(account_id) {
            Some(i) => {
                proof {
                    lemma_map_of_found(self.entries@, i as int);
                }
                let account = Account {
                    account_type: self.entries[i].1.account_type,
                    public_key: clone_bytes(&self.entries[i].1.public_key),
                    balance,
                };
                let id = self.entries[i].0.clone();
                let mut entries: Vec<(AccountId, Account)> = Vec::new();
                core::mem::swap(&mut entries, &mut self.entries);
                entries[i] = (id, account);
                proof {
                    assert(forall|x: int|
                        0 <= x < entries@.len() ==> entries@[x].0@ == old(self).entries@[x].0@);
                }
                self.entries = entries;
                proof {
                    lemma_map_of_update(
                        old(self).entries@,
                        i as int,
                        self.entries@[i as int],
                    );
                    assert(self.entries@ =~= old(self).entries@.update(
                        i as int,
                        self.entries@[i as int],
                    ));
                }
                Ok(())
            },
            None => {
                proof {
                    lemma_map_of_absent(self.entries@, account_id@);
                }
                Err(TxError::UnknownAccount)
            },
        }
    }
}

} // verus!
