//! The deposit validator.
use vstd::prelude::*;
use crate::error::{from_store, is_store_fault, ProcessError};
use crate::ledger::{
    find_record, lemma_reject_keeps_single_refund, single_refund_per_target, with_status,
};
use crate::model::{DbTransaction, QueueTransaction, TransactionStatus};
use crate::repository::{in_service, StoreError, TAccountRepository, TTransactionRepository};

verus! {

/// The approving write on the pending row `id`; the store refuses it, as a
/// conflict, where it would give a transaction a second approved refund.
pub open spec fn approval(rows: Seq<DbTransaction>, id: u128) -> (
    Seq<DbTransaction>,
    Result<(), ProcessError>,
) {
    let approved = with_status(rows, id, TransactionStatus::Approved);
    if single_refund_per_target(approved) {
        (approved, Ok(()))
    } else {
        (rows, Err(ProcessError::Store(StoreError::Conflict)))
    }
}

/// The ledger after a deposit event, and the result reported.
///
/// An unknown account rejects the deposit; a deposit missing from the
/// ledger is a fault; a deposit no longer pending is left alone; any other
/// is approved.
pub open spec fn deposit_outcome(
    account_ids: Set<u128>,
    rows: Seq<DbTransaction>,
    tx: QueueTransaction,
) -> (Seq<DbTransaction>, Result<(), ProcessError>) {
    if !account_ids.contains(tx.account_id) {
        (with_status(rows, tx.id, TransactionStatus::Rejected), Ok(()))
    } else {
        match find_record(rows, tx.id) {
            None => (rows, Err(ProcessError::TransactionNotFound(tx.id))),
            Some(t) => if t.status != TransactionStatus::Pending {
                (rows, Ok(()))
            } else {
                approval(rows, tx.id)
            },
        }
    }
}

/// Validates and applies a deposit event.
///
/// With stores in service the ledger and the result are exactly those of
/// `deposit_outcome`; with any store, a result that is not a store fault is
/// that outcome, and a store fault leaves the ledger unchanged.
pub fn process_deposit<T: TTransactionRepository, A: TAccountRepository>(
    transaction_repo: &mut T,
    account_repo: &A,
    tx: &QueueTransaction,
) -> (r: Result<(), ProcessError>)
    ensures
        old(transaction_repo).described() ==> final(transaction_repo).described(),
        old(transaction_repo).available() ==> final(transaction_repo).available(),
        in_service(*old(transaction_repo), *account_repo) ==> (
        final(transaction_repo).records(),
        r,
        ) == deposit_outcome(account_repo.account_ids(), old(transaction_repo).records(), *tx),
        old(transaction_repo).described() && account_repo.described() && !is_store_fault(r) ==> (
        final(transaction_repo).records(),
        r,
        ) == deposit_outcome(account_repo.account_ids(), old(transaction_repo).records(), *tx),
        old(transaction_repo).described() && is_store_fault(r) ==> final(transaction_repo).records()
            == old(transaction_repo).records(),
{
    proof {
        if single_refund_per_target(transaction_repo.records()) {
            lemma_reject_keeps_single_refund(transaction_repo.records(), tx.id);
        }
    }
    let account = from_store(account_repo.find_by_id(tx.account_id))?;
    if account.is_none() {
        from_store(transaction_repo.update_status(tx.id, TransactionStatus::Rejected))?;
        return Ok(());
    }
    let existing = match from_store(transaction_repo.find_by_id(tx.id))? {
        Some(t) => t,
        None => return Err(ProcessError::TransactionNotFound(tx.id)),
    };
    if existing.status != TransactionStatus::Pending {
        return Ok(());
    }
    from_store(transaction_repo.update_status(tx.id, TransactionStatus::Approved))?;
    Ok(())
}

} // verus!
