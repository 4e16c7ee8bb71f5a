//! The store interfaces the engine depends on.
use vstd::prelude::*;
use crate::balance::{balance_of, fits_i64};
use crate::ledger::{
    find_record, has_approved_refund, single_refund_per_target, with_refund_link, with_status,
};
use crate::model::{DbAccount, DbTransaction, TransactionStatus};

verus! {

/// A failed call into a store.
#[derive(Debug, Clone, PartialEq, Eq)]
pub enum StoreError {
    /// The store could not be reached or did not complete the call; the
    /// text says why.
    Unavailable(String),
    /// The write would give a transaction a second approved refund; the
    /// store refused it.
    Conflict,
}

/// Read access to the accounts of the ledger.
///
/// A store promises its answers only where it declares `described()`: its
/// contents are then those of `account_ids()`. One that also declares
/// `available()` answers every call.
pub trait TAccountRepository {
    /// The store's contents are those that `account_ids()` gives. The
    /// default, for stores with no model of their own, promises nothing.
    open spec fn described(&self) -> bool {
        false
    }

    /// Every call is answered. The default promises nothing.
    open spec fn available(&self) -> bool {
        false
    }

    /// The ids of the accounts that exist; meaningful where `described()`
    /// holds. The default is there for stores with no model of their own.
    open spec fn account_ids(&self) -> Set<u128> {
        Set::empty()
    }

    /// Finds an account by id.
    fn find_by_id(&self, account_id: u128) -> (r: Result<Option<DbAccount>, StoreError>)
        ensures
            self.available() ==> r is Ok,
            self.described() ==> (r matches Ok(found) ==> (found is Some
                <==> self.account_ids().contains(account_id))),
            self.described() ==> (r matches Ok(Some(a)) ==> a.id == account_id),
    ;
}

/// Access to the transactions of the ledger.
///
/// A store promises its answers only where it declares `described()`: its
/// contents are then those of `records()`. One that also declares
/// `available()` answers every call and fails a write only as below.
///
/// Both writes are conditional, as the store applies them atomically: a
/// status only moves a pending row, and a write that would leave a
/// transaction with two approved refunds is refused with
/// `StoreError::Conflict` (a uniqueness constraint of the store).
pub trait TTransactionRepository {
    /// The store's contents are those that `records()` gives. The default,
    /// for stores with no model of their own, promises nothing.
    open spec fn described(&self) -> bool {
        false
    }

    /// Every call is answered. The default promises nothing.
    open spec fn available(&self) -> bool {
        false
    }

    /// The rows of the ledger; meaningful where `described()` holds. The
    /// default is there for stores with no model of their own.
    open spec fn records(&self) -> Seq<DbTransaction> {
        Seq::empty()
    }

    /// Finds a transaction by id.
    fn find_by_id(&self, tx_id: u128) -> (r: Result<Option<DbTransaction>, StoreError>)
        ensures
            self.available() ==> r is Ok,
            self.described() ==> (r matches Ok(found) ==> found == find_record(
                self.records(),
                tx_id,
            )),
    ;

    /// Moves the transaction `tx_id` to `status` if it is still pending.
    fn update_status(&mut self, tx_id: u128, status: TransactionStatus) -> (r: Result<(), StoreError>)
        ensures
            old(self).described() ==> final(self).described(),
            old(self).available() ==> final(self).available() && !(r matches Err(
                StoreError::Unavailable(_),
            )),
            old(self).described() && r is Ok ==> final(self).records() == with_status(
                old(self).records(),
                tx_id,
                status,
            ) && single_refund_per_target(final(self).records()),
            old(self).described() && r is Err ==> final(self).records() == old(self).records(),
            old(self).described() && r == Err::<(), StoreError>(StoreError::Conflict)
                ==> !single_refund_per_target(with_status(old(self).records(), tx_id, status)),
    ;

    /// Records that the pending transaction `tx_id` refunds `refund_tx_id`,
    /// copies the amount of `refund_tx_id` onto it and moves it to
    /// `status`, in one write.
    fn update_refund_transaction_id(
        &mut self,
        tx_id: u128,
        refund_tx_id: u128,
        status: TransactionStatus,
    ) -> (r: Result<(), StoreError>)
        ensures
            old(self).described() ==> final(self).described(),
            old(self).available() ==> final(self).available() && !(r matches Err(
                StoreError::Unavailable(_),
            )),
            old(self).described() && r is Ok ==> final(self).records() == with_refund_link(
                old(self).records(),
                tx_id,
                refund_tx_id,
                status,
            ) && single_refund_per_target(final(self).records()),
            old(self).described() && r is Err ==> final(self).records() == old(self).records(),
            old(self).described() && r == Err::<(), StoreError>(StoreError::Conflict)
                ==> !single_refund_per_target(
                with_refund_link(old(self).records(), tx_id, refund_tx_id, status),
            ),
    ;

    /// The balance of an account, summed over its approved transactions.
    /// A balance that does not fit an `i64` is an error.
    fn get_balance(&self, account_id: u128) -> (r: Result<i64, StoreError>)
        ensures
            self.available() && self.described() && fits_i64(
                balance_of(self.records(), account_id),
            ) ==> r is Ok,
            self.described() ==> (r matches Ok(b) ==> b as int == balance_of(
                self.records(),
                account_id,
            )),
    ;

    /// Whether an approved transaction already refunds `target_tx_id`.
    fn has_been_refunded(&self, target_tx_id: u128) -> (r: Result<bool, StoreError>)
        ensures
            self.available() ==> r is Ok,
            self.described() ==> (r matches Ok(b) ==> b == has_approved_refund(
                self.records(),
                target_tx_id,
            )),
    ;
}

/// Both stores hold a model and answer every call, and the ledger keeps at
/// most one approved refund per transaction.
pub open spec fn in_service<T: TTransactionRepository, A: TAccountRepository>(tr: T, ar: A) -> bool {
    &&& tr.described()
    &&& tr.available()
    &&& ar.described()
    &&& ar.available()
    &&& single_refund_per_target(tr.records())
}

} // verus!
