//! The transaction processing pipeline.
use vstd::prelude::*;
use crate::balance::{balance_of, fits_i64};
use crate::deposit_service::{deposit_outcome, process_deposit};
use crate::error::{from_store, is_store_fault, ProcessError};
use crate::ledger::{
    lemma_reject_keeps_single_refund, lemma_settled_found, lemma_writes_on_settled,
    lemma_writes_settle, settled, single_refund_per_target, with_status,
};
use crate::model::{
    type_from_name, uppercase_of, Account, BalanceRequest, DbTransaction, QueueTransaction,
    TransactionStatus, TransactionType,
};
use crate::processor_balance::process_balance_request;
use crate::purchase_service::{process_purchase, purchase_outcome};
use crate::refund_service::{parsed_uuid, process_refund, refund_outcome};
use crate::repository::{in_service, TAccountRepository, TTransactionRepository};

verus! {

/// The ledger after the validator of type `kind` handled `tx`, and its result.
pub open spec fn validator_outcome(
    account_ids: Set<u128>,
    rows: Seq<DbTransaction>,
    tx: QueueTransaction,
    kind: TransactionType,
) -> (Seq<DbTransaction>, Result<(), ProcessError>) {
    match kind {
        TransactionType::Deposit => deposit_outcome(account_ids, rows, tx),
        TransactionType::Purchase => purchase_outcome(account_ids, rows, tx),
        TransactionType::Refund => refund_outcome(account_ids, rows, tx),
    }
}

/// The ledger after a transaction event, and the result reported, before
/// the balance is refreshed.
///
/// A non-positive amount is rejected before the type is looked at; an
/// unknown type is rejected and reported; any other event goes to the
/// validator of its type.
pub open spec fn transaction_outcome(
    account_ids: Set<u128>,
    rows: Seq<DbTransaction>,
    tx: QueueTransaction,
) -> (Seq<DbTransaction>, Result<(), ProcessError>) {
    if tx.amount_cents <= 0 {
        (with_status(rows, tx.id, TransactionStatus::Rejected), Ok(()))
    } else {
        match type_from_name(uppercase_of(tx.transaction_type@)) {
            None => (
                with_status(rows, tx.id, TransactionStatus::Rejected),
                Err(ProcessError::InvalidTransactionType(tx.transaction_type)),
            ),
            Some(kind) => validator_outcome(account_ids, rows, tx, kind),
        }
    }
}

/// The pipeline's result `r` reports the validator's result `e`: it
/// succeeds exactly when `e` does, and fails with the same error.
pub open spec fn reports(r: Result<Option<Account>, ProcessError>, e: Result<(), ProcessError>) -> bool {
    &&& (r is Ok <==> e is Ok)
    &&& (r is Err ==> e == Err::<(), ProcessError>(r->Err_0))
}

/// Processes one transaction event: validates and applies it, then
/// recomputes the account's balance. On success the result is the balance
/// entry to write to the cache, or `None` when the account does not exist.
///
/// An error skips the refresh. The reported errors of refunds follow a
/// rejection, and a rejected row counts toward no balance, so the cached
/// balance stays right without one.
///
/// With stores in service, and balances that fit an `i64`, the ledger and
/// the result are exactly those of `transaction_outcome` followed by the
/// refresh; with any store, a result that is not a store fault is that
/// outcome.
pub fn process_transaction<T: TTransactionRepository, A: TAccountRepository>(
    transaction_repo: &mut T,
    account_repo: &A,
    tx: &QueueTransaction,
) -> (r: Result<Option<Account>, ProcessError>)
    ensures
        old(transaction_repo).described() ==> final(transaction_repo).described(),
        old(transaction_repo).available() ==> final(transaction_repo).available(),
        in_service(*old(transaction_repo), *account_repo) && fits_i64(
            balance_of(old(transaction_repo).records(), tx.account_id),
        ) && fits_i64(
            balance_of(
                transaction_outcome(
                    account_repo.account_ids(),
                    old(transaction_repo).records(),
                    *tx,
                ).0,
                tx.account_id,
            ),
        ) ==> final(transaction_repo).records() == transaction_outcome(
            account_repo.account_ids(),
            old(transaction_repo).records(),
            *tx,
        ).0 && reports(
            r,
            transaction_outcome(account_repo.account_ids(), old(transaction_repo).records(), *tx).1,
        ),
        old(transaction_repo).described() && account_repo.described() && !is_store_fault(r)
            ==> final(transaction_repo).records() == transaction_outcome(
            account_repo.account_ids(),
            old(transaction_repo).records(),
            *tx,
        ).0 && reports(
            r,
            transaction_outcome(account_repo.account_ids(), old(transaction_repo).records(), *tx).1,
        ),
        old(transaction_repo).described() && account_repo.described() && is_store_fault(r) ==> (final(transaction_repo).records()
            == old(transaction_repo).records() || final(transaction_repo).records()
            == transaction_outcome(
            account_repo.account_ids(),
            old(transaction_repo).records(),
            *tx,
        ).0),
        account_repo.described() ==> (r matches Ok(entry) ==> (entry is Some
            <==> account_repo.account_ids().contains(tx.account_id))),
        r matches Ok(Some(a)) ==> a.id == tx.account_id,
        old(transaction_repo).described() ==> (r matches Ok(Some(a)) ==> a.balance_cents as int
            == balance_of(final(transaction_repo).records(), tx.account_id)),
{
    proof {
        if single_refund_per_target(transaction_repo.records()) {
            lemma_reject_keeps_single_refund(transaction_repo.records(), tx.id);
        }
    }
    if tx.amount_cents <= 0 {
        from_store(transaction_repo.update_status(tx.id, TransactionStatus::Rejected))?;
    } else {
        match TransactionType::from_str(tx.transaction_type.as_str()) {
            Ok(TransactionType::Deposit) => {
                process_deposit(transaction_repo, account_repo, tx)?;
            },
            Ok(TransactionType::Purchase) => {
                process_purchase(transaction_repo, account_repo, tx)?;
            },
            Ok(TransactionType::Refund) => {
                process_refund(transaction_repo, account_repo, tx)?;
            },
            Err(_) => {
                from_store(transaction_repo.update_status(tx.id, TransactionStatus::Rejected))?;
                return Err(ProcessError::InvalidTransactionType(tx.transaction_type.clone()));
            },
        }
    }
    let request = BalanceRequest { account_id: tx.account_id };
    process_balance_request(account_repo, &*transaction_repo, request)
}

proof fn lemma_outcome_on_settled(account_ids: Set<u128>, rows: Seq<DbTransaction>, tx: QueueTransaction)
    requires
        settled(rows, tx.id),
    ensures
        transaction_outcome(account_ids, rows, tx).0 == rows,
{
    lemma_writes_on_settled(rows, tx.id, TransactionStatus::Rejected, 0);
    lemma_writes_on_settled(rows, tx.id, TransactionStatus::Approved, 0);
    lemma_settled_found(rows, tx.id);
}

proof fn lemma_outcome_settles(account_ids: Set<u128>, rows: Seq<DbTransaction>, tx: QueueTransaction)
    ensures
        transaction_outcome(account_ids, rows, tx).0 == rows || settled(
            transaction_outcome(account_ids, rows, tx).0,
            tx.id,
        ),
{
    lemma_writes_settle(rows, tx.id, TransactionStatus::Rejected, 0);
    lemma_writes_settle(rows, tx.id, TransactionStatus::Approved, 0);
    match parsed_uuid(tx.refund_transaction_id.value@) {
        Some(target) => lemma_writes_settle(rows, tx.id, TransactionStatus::Approved, target),
        None => {},
    }
}

/// Processing the same transaction event a second time, once the first run
/// has been applied, leaves the ledger as the first run left it.
pub proof fn lemma_reprocessing_changes_nothing(
    account_ids: Set<u128>,
    rows: Seq<DbTransaction>,
    tx: QueueTransaction,
)
    ensures
        transaction_outcome(account_ids, transaction_outcome(account_ids, rows, tx).0, tx).0
            == transaction_outcome(account_ids, rows, tx).0,
{
    let once = transaction_outcome(account_ids, rows, tx).0;
    lemma_outcome_settles(account_ids, rows, tx);
    if once != rows {
        lemma_outcome_on_settled(account_ids, once, tx);
    }
}

} // verus!
