//! The purchase validator.
use vstd::prelude::*;
use crate::balance::{balance_of, fits_i64};
use crate::deposit_service::approval;
use crate::error::{from_store, is_store_fault, ProcessError};
use crate::ledger::{
    find_record, lemma_reject_keeps_single_refund, single_refund_per_target, with_status,
};
use crate::model::{DbTransaction, QueueTransaction, TransactionStatus};
use crate::repository::{in_service, TAccountRepository, TTransactionRepository};

verus! {

/// The ledger after a purchase event, and the result reported.
///
/// As for a deposit, except that a pending purchase is approved only when
/// the account's current balance covers the event's amount, and rejected
/// otherwise.
pub open spec fn purchase_outcome(
    account_ids: Set<u128>,
    rows: Seq<DbTransaction>,
    tx: QueueTransaction,
) -> (Seq<DbTransaction>, Result<(), ProcessError>) {
    if !account_ids.contains(tx.account_id) {
        (with_status(rows, tx.id, TransactionStatus::Rejected), Ok(()))
    } else {
        match find_record(rows, tx.id) {
            None => (rows, Err(ProcessError::TransactionNotFound(tx.id))),
            Some(t) => if t.status != TransactionStatus::Pending {
                (rows, Ok(()))
            } else if balance_of(rows, tx.account_id) < tx.amount_cents {
                (with_status(rows, tx.id, TransactionStatus::Rejected), Ok(()))
            } else {
                approval(rows, tx.id)
            },
        }
    }
}

/// Validates and applies a purchase event; the spending power is the
/// balance recomputed from the ledger.
///
/// With stores in service, and a balance that fits an `i64`, the ledger
/// and the result are exactly those of `purchase_outcome`; with any store,
/// a result that is not a store fault is that outcome, and a store fault
/// leaves the ledger unchanged.
pub fn process_purchase<T: TTransactionRepository, A: TAccountRepository>(
    transaction_repo: &mut T,
    account_repo: &A,
    tx: &QueueTransaction,
) -> (r: Result<(), ProcessError>)
    ensures
        old(transaction_repo).described() ==> final(transaction_repo).described(),
        old(transaction_repo).available() ==> final(transaction_repo).available(),
        in_service(*old(transaction_repo), *account_repo) && fits_i64(
            balance_of(old(transaction_repo).records(), tx.account_id),
        ) ==> (final(transaction_repo).records(), r) == purchase_outcome(
            account_repo.account_ids(),
            old(transaction_repo).records(),
            *tx,
        ),
        old(transaction_repo).described() && account_repo.described() && !is_store_fault(r) ==> (
        final(transaction_repo).records(),
        r,
        ) == purchase_outcome(account_repo.account_ids(), old(transaction_repo).records(), *tx),
        old(transaction_repo).described() && is_store_fault(r) ==> final(transaction_repo).records()
            == old(transaction_repo).records(),
{
    proof {
        if single_refund_per_target(transaction_repo.records()) {
            lemma_reject_keeps_single_refund(transaction_repo.records(), tx.id);
        }
    }
    let account = from_store(account_repo.find_by_id(tx.account_id))?;
    if account.is_none() {
        from_store(transaction_repo.update_status(tx.id, TransactionStatus::Rejected))?;
        return Ok(());
    }
    let existing = match from_store(transaction_repo.find_by_id(tx.id))? {
        Some(t) => t,
        None => return Err(ProcessError::TransactionNotFound(tx.id)),
    };
    if existing.status != TransactionStatus::Pending {
        return Ok(());
    }
    let balance = from_store(transaction_repo.get_balance(tx.account_id))?;
    if balance < tx.amount_cents {
        from_store(transaction_repo.update_status(tx.id, TransactionStatus::Rejected))?;
    } else {
        from_store(transaction_repo.update_status(tx.id, TransactionStatus::Approved))?;
    }
    Ok(())
}

} // verus!
