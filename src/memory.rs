//! In-memory stores, verified against the store contracts.
use vstd::prelude::*;
use vstd::string::StringExecFns;
use crate::balance::compute_balance;
use crate::ledger::{
    any_approved_refund, find_record, find_row, has_refund_collision, row_with_refund_link,
    row_with_status, set_row_refund_link, set_row_status, single_refund_per_target,
    with_refund_link, with_status,
};
use crate::model::{DbAccount, DbTransaction, TransactionStatus};
use crate::repository::{StoreError, TAccountRepository, TTransactionRepository};

verus! {

/// An in-memory account store.
pub struct MemoryAccountRepository {
    accounts: Vec<DbAccount>,
}

/// An in-memory transaction store that applies its writes conditionally,
/// as the ledger's constraints require.
pub struct MemoryTransactionRepository {
    rows: Vec<DbTransaction>,
}

impl MemoryAccountRepository {
    /// A store with no accounts.
    pub fn new() -> (r: MemoryAccountRepository)
        ensures
            r.account_ids() == Set::<u128>::empty(),
    {
        let r = MemoryAccountRepository { accounts: Vec::new() };
        assert(r.account_ids() =~= Set::<u128>::empty());
        r
    }

    /// Adds an account.
    pub fn insert(&mut self, account: DbAccount)
        ensures
            final(self).account_ids() == old(self).account_ids().insert(account.id),
    {
        self.accounts.push(account);
        proof {
            let before = old(self).accounts@;
            let after = self.accounts@;
            assert forall|x: u128| holds_account(after, x) <==> holds_account(before, x) || x == account.id by {
                if holds_account(before, x) {
                    let k = choose|k: int| 0 <= k < before.len() && #[trigger] before[k].id == x;
                    assert(after[k].id == x);
                }
                if x == account.id {
                    assert(after[before.len() as int].id == x);
                }
                if holds_account(after, x) {
                    let k = choose|k: int| 0 <= k < after.len() && #[trigger] after[k].id == x;
                    if k < before.len() {
                        assert(before[k].id == x);
                    }
                }
            }
            assert(self.account_ids() =~= old(self).account_ids().insert(account.id));
        }
    }
}

/// Some account in `accounts` has the id `id`.
pub open spec fn holds_account(accounts: Seq<DbAccount>, id: u128) -> bool {
    exists|k: int| 0 <= k < accounts.len() && #[trigger] accounts[k].id == id
}

impl TAccountRepository for MemoryAccountRepository {
    open spec fn described(&self) -> bool {
        true
    }

    open spec fn available(&self) -> bool {
        true
    }

    closed spec fn account_ids(&self) -> Set<u128> {
        Set::new(|id: u128| holds_account(self.accounts@, id))
    }

    fn find_by_id(&self, account_id: u128) -> (r: Result<Option<DbAccount>, StoreError>) {
        let mut i: usize = 0;
        while i < self.accounts.len()
            invariant
                i <= self.accounts.len(),
                forall|k: int| 0 <= k < i ==> (#[trigger] self.accounts@[k]).id != account_id,
            decreases self.accounts.len() - i,
        {
            let a = &self.accounts[i];
            if a.id == account_id {
                assert(self.accounts@[i as int].id == account_id);
                return Ok(
                    Some(
                        DbAccount {
                            id: a.id,
                            username: a.username.clone(),
                            created_at: a.created_at,
                            updated_at: a.updated_at,
                        },
                    ),
                );
            }
            i = i + 1;
        }
        Ok(None)
    }
}

impl MemoryTransactionRepository {
    /// A store with no transactions.
    pub fn new() -> (r: MemoryTransactionRepository)
        ensures
            r.records() == Seq::<DbTransaction>::empty(),
    {
        MemoryTransactionRepository { rows: Vec::new() }
    }

    /// Adds a transaction, as an upstream writer does. Refused, with the
    /// store left as it was, when the id is taken or when the row would give
    /// a transaction a second approved refund.
    pub fn insert(&mut self, row: DbTransaction) -> (r: bool)
        ensures
            r == (find_record(old(self).records(), row.id) is None && single_refund_per_target(
                old(self).records().push(row),
            )),
            r ==> final(self).records() == old(self).records().push(row),
            !r ==> final(self).records() == old(self).records(),
    {
        if find_row(&self.rows, row.id).is_some() {
            return false;
        }
        let mut candidate = self.rows.clone();
        candidate.push(row);
        if has_refund_collision(&candidate) {
            return false;
        }
        self.rows = candidate;
        true
    }
}

impl TTransactionRepository for MemoryTransactionRepository {
    open spec fn described(&self) -> bool {
        true
    }

    open spec fn available(&self) -> bool {
        true
    }

    closed spec fn records(&self) -> Seq<DbTransaction> {
        self.rows@
    }

    fn find_by_id(&self, tx_id: u128) -> (r: Result<Option<DbTransaction>, StoreError>) {
        Ok(find_row(&self.rows, tx_id))
    }

    fn update_status(&mut self, tx_id: u128, status: TransactionStatus) -> (r: Result<(), StoreError>) {
        let mut candidate: Vec<DbTransaction> = Vec::new();
        let mut i: usize = 0;
        while i < self.rows.len()
            invariant
                i <= self.rows.len(),
                candidate@.len() == i,
                forall|k: int| 0 <= k < i ==> candidate@[k] == row_with_status(self.rows@[k], tx_id, status),
            decreases self.rows.len() - i,
        {
            candidate.push(set_row_status(self.rows[i], tx_id, status));
            i = i + 1;
        }
        assert(candidate@ =~= with_status(self.rows@, tx_id, status));
        if has_refund_collision(&candidate) {
            return Err(StoreError::Conflict);
        }
        self.rows = candidate;
        Ok(())
    }

    fn update_refund_transaction_id(
        &mut self,
        tx_id: u128,
        refund_tx_id: u128,
        status: TransactionStatus,
    ) -> (r: Result<(), StoreError>) {
        let target_row = find_row(&self.rows, refund_tx_id);
        let mut candidate: Vec<DbTransaction> = Vec::new();
        let mut i: usize = 0;
        while i < self.rows.len()
            invariant
                i <= self.rows.len(),
                candidate@.len() == i,
                target_row == find_record(self.rows@, refund_tx_id),
                forall|k: int|
                    0 <= k < i ==> candidate@[k] == row_with_refund_link(
                        self.rows@[k],
                        tx_id,
                        refund_tx_id,
                        target_row,
                        status,
                    ),
            decreases self.rows.len() - i,
        {
            candidate.push(set_row_refund_link(self.rows[i], tx_id, refund_tx_id, target_row, status));
            i = i + 1;
        }
        assert(candidate@ =~= with_refund_link(self.rows@, tx_id, refund_tx_id, status));
        if has_refund_collision(&candidate) {
            return Err(StoreError::Conflict);
        }
        self.rows = candidate;
        Ok(())
    }

    fn get_balance(&self, account_id: u128) -> (r: Result<i64, StoreError>) {
        match compute_balance(&self.rows, account_id) {
            Some(b) => Ok(b),
            None => Err(StoreError::Unavailable(String::from_str("balance out of range"))),
        }
    }

    fn has_been_refunded(&self, target_tx_id: u128) -> (r: Result<bool, StoreError>) {
        Ok(any_approved_refund(&self.rows, target_tx_id))
    }
}

} // verus!
