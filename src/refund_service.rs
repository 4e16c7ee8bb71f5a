//! The refund validator and the laws of refunds.
use vstd::prelude::*;
use crate::error::{from_store, is_store_fault, ProcessError};
use crate::ledger::{
    find_record, has_approved_refund, lemma_reject_keeps_single_refund, refunds,
    single_refund_per_target, with_refund_link, with_status,
};
use crate::model::{DbTransaction, QueueTransaction, TransactionStatus, TransactionType};
use crate::repository::{in_service, StoreError, TAccountRepository, TTransactionRepository};

verus! {

/// The id that `uuid::Uuid::parse_str` reads from a text, if it accepts it.
pub uninterp spec fn parsed_uuid(s: Seq<char>) -> Option<u128>;

/// Relies on `uuid::Uuid::parse_str`: which texts are well-formed ids, and
/// the 128-bit value of each; the result depends on the text alone.
#[verifier::external_body]
fn parse_uuid(s: &str) -> (r: Option<u128>)
    ensures
        r == parsed_uuid(s@),
{
    match uuid::Uuid::parse_str(s) {
        Ok(id) => Some(id.as_u128()),
        Err(_) => None,
    }
}

/// The final write of an accepted refund: link and approve in one step, or,
/// where the store refuses it as a second approved refund, reject.
pub open spec fn link_or_reject(rows: Seq<DbTransaction>, id: u128, target: u128) -> (
    Seq<DbTransaction>,
    Result<(), ProcessError>,
) {
    let linked = with_refund_link(rows, id, target, TransactionStatus::Approved);
    if single_refund_per_target(linked) {
        (linked, Ok(()))
    } else {
        (
            with_status(rows, id, TransactionStatus::Rejected),
            Err(ProcessError::AlreadyRefunded(target)),
        )
    }
}

/// The ledger after the refund `id` of account `account_id` is checked
/// against its resolved target `target`, and the result reported.
pub open spec fn refund_target_outcome(
    rows: Seq<DbTransaction>,
    id: u128,
    account_id: u128,
    target: u128,
) -> (Seq<DbTransaction>, Result<(), ProcessError>) {
    let rejected = with_status(rows, id, TransactionStatus::Rejected);
    match find_record(rows, target) {
        None => (rejected, Err(ProcessError::RefundTargetNotFound(target))),
        Some(o) => if has_approved_refund(rows, target) {
            (rejected, Err(ProcessError::AlreadyRefunded(target)))
        } else if o.status != TransactionStatus::Approved {
            (rejected, Ok(()))
        } else if o.account_id != account_id {
            (rejected, Ok(()))
        } else if o.transaction_type == TransactionType::Refund {
            (rejected, Ok(()))
        } else {
            link_or_reject(rows, id, target)
        },
    }
}

/// The ledger after a refund event, and the result reported. A refund
/// missing from the ledger is a fault and one no longer pending is left
/// alone; every other path but the approving one writes `Rejected` on it.
pub open spec fn refund_outcome(
    account_ids: Set<u128>,
    rows: Seq<DbTransaction>,
    tx: QueueTransaction,
) -> (Seq<DbTransaction>, Result<(), ProcessError>) {
    let rejected = with_status(rows, tx.id, TransactionStatus::Rejected);
    if !account_ids.contains(tx.account_id) {
        (rejected, Ok(()))
    } else {
        match find_record(rows, tx.id) {
            None => (rows, Err(ProcessError::TransactionNotFound(tx.id))),
            Some(t) => if t.status != TransactionStatus::Pending {
                (rows, Ok(()))
            } else if !tx.refund_transaction_id.is_valid {
                (rejected, Err(ProcessError::MissingRefundTarget))
            } else {
                match parsed_uuid(tx.refund_transaction_id.value@) {
                    None => (
                        rejected,
                        Err(ProcessError::InvalidRefundTarget(tx.refund_transaction_id.value)),
                    ),
                    Some(target) => refund_target_outcome(rows, tx.id, tx.account_id, target),
                }
            },
        }
    }
}

/// Writes `Rejected` on `tx_id` and then reports `error`.
fn reject_with<T: TTransactionRepository>(
    transaction_repo: &mut T,
    tx_id: u128,
    error: Result<(), ProcessError>,
) -> (r: Result<(), ProcessError>)
    requires
        !is_store_fault(error),
    ensures
        old(transaction_repo).described() ==> final(transaction_repo).described(),
        old(transaction_repo).available() ==> final(transaction_repo).available(),
        old(transaction_repo).described() && old(transaction_repo).available()
            && single_refund_per_target(old(transaction_repo).records()) ==> !is_store_fault(r),
        old(transaction_repo).described() && !is_store_fault(r) ==> r == error && final(transaction_repo).records() == with_status(
            old(transaction_repo).records(),
            tx_id,
            TransactionStatus::Rejected,
        ),
        old(transaction_repo).described() && is_store_fault(r) ==> final(transaction_repo).records()
            == old(transaction_repo).records(),
{
    proof {
        if single_refund_per_target(transaction_repo.records()) {
            lemma_reject_keeps_single_refund(transaction_repo.records(), tx_id);
        }
    }
    from_store(transaction_repo.update_status(tx_id, TransactionStatus::Rejected))?;
    error
}

/// Checks the refund `tx_id` of account `account_id` against the target
/// `target_id` and applies the outcome: the target must exist, have no
/// approved refund yet, be approved, belong to the same account and not be
/// a refund itself.
pub fn apply_refund_target<T: TTransactionRepository>(
    transaction_repo: &mut T,
    tx_id: u128,
    account_id: u128,
    target_id: u128,
) -> (r: Result<(), ProcessError>)
    ensures
        old(transaction_repo).described() ==> final(transaction_repo).described(),
        old(transaction_repo).available() ==> final(transaction_repo).available(),
        old(transaction_repo).described() && old(transaction_repo).available()
            && single_refund_per_target(old(transaction_repo).records()) ==> (
        final(transaction_repo).records(),
        r,
        ) == refund_target_outcome(old(transaction_repo).records(), tx_id, account_id, target_id),
        old(transaction_repo).described() && !is_store_fault(r) ==> (
        final(transaction_repo).records(),
        r,
        ) == refund_target_outcome(old(transaction_repo).records(), tx_id, account_id, target_id),
        old(transaction_repo).described() && is_store_fault(r) ==> final(transaction_repo).records()
            == old(transaction_repo).records(),
{
    let target = match from_store(transaction_repo.find_by_id(target_id))? {
        Some(t) => t,
        None => {
            return reject_with(
                transaction_repo,
                tx_id,
                Err(ProcessError::RefundTargetNotFound(target_id)),
            );
        },
    };
    let already_refunded = from_store(transaction_repo.has_been_refunded(target_id))?;
    if already_refunded {
        return reject_with(transaction_repo, tx_id, Err(ProcessError::AlreadyRefunded(target_id)));
    }
    if target.status != TransactionStatus::Approved {
        return reject_with(transaction_repo, tx_id, Ok(()));
    }
    if target.account_id != account_id {
        return reject_with(transaction_repo, tx_id, Ok(()));
    }
    if target.transaction_type == TransactionType::Refund {
        return reject_with(transaction_repo, tx_id, Ok(()));
    }
    match transaction_repo.update_refund_transaction_id(
        tx_id,
        target_id,
        TransactionStatus::Approved,
    ) {
        Ok(()) => Ok(()),
        Err(StoreError::Conflict) => reject_with(
            transaction_repo,
            tx_id,
            Err(ProcessError::AlreadyRefunded(target_id)),
        ),
        Err(e) => Err(ProcessError::Store(e)),
    }
}

/// Validates and applies a refund event.
pub fn process_refund<T: TTransactionRepository, A: TAccountRepository>(
    transaction_repo: &mut T,
    account_repo: &A,
    tx: &QueueTransaction,
) -> (r: Result<(), ProcessError>)
    ensures
        old(transaction_repo).described() ==> final(transaction_repo).described(),
        old(transaction_repo).available() ==> final(transaction_repo).available(),
        in_service(*old(transaction_repo), *account_repo) ==> (
        final(transaction_repo).records(),
        r,
        ) == refund_outcome(account_repo.account_ids(), old(transaction_repo).records(), *tx),
        old(transaction_repo).described() && account_repo.described() && !is_store_fault(r) ==> (
        final(transaction_repo).records(),
        r,
        ) == refund_outcome(account_repo.account_ids(), old(transaction_repo).records(), *tx),
        old(transaction_repo).described() && is_store_fault(r) ==> final(transaction_repo).records()
            == old(transaction_repo).records(),
{
    let account = from_store(account_repo.find_by_id(tx.account_id))?;
    if account.is_none() {
        return reject_with(transaction_repo, tx.id, Ok(()));
    }
    let existing = match from_store(transaction_repo.find_by_id(tx.id))? {
        Some(t) => t,
        None => return Err(ProcessError::TransactionNotFound(tx.id)),
    };
    if existing.status != TransactionStatus::Pending {
        return Ok(());
    }
    if !tx.refund_transaction_id.is_valid {
        return reject_with(transaction_repo, tx.id, Err(ProcessError::MissingRefundTarget));
    }
    let target_id = match parse_uuid(tx.refund_transaction_id.value.as_str()) {
        Some(id) => id,
        None => {
            let text = tx.refund_transaction_id.value.clone();
            return reject_with(transaction_repo, tx.id, Err(ProcessError::InvalidRefundTarget(text)));
        },
    };
    apply_refund_target(transaction_repo, tx.id, tx.account_id, target_id)
}

/// A pending refund whose target is itself a refund is always rejected: the
/// ledger after it differs from the one before only in that the refund is
/// now `Rejected`.
pub proof fn lemma_refund_of_refund_rejected(
    account_ids: Set<u128>,
    rows: Seq<DbTransaction>,
    tx: QueueTransaction,
)
    requires
        find_record(rows, tx.id) is Some,
        find_record(rows, tx.id)->Some_0.status == TransactionStatus::Pending,
        tx.refund_transaction_id.is_valid,
        parsed_uuid(tx.refund_transaction_id.value@) is Some,
        find_record(rows, parsed_uuid(tx.refund_transaction_id.value@)->Some_0) is Some,
        find_record(rows, parsed_uuid(tx.refund_transaction_id.value@)->Some_0)->Some_0.transaction_type
            == TransactionType::Refund,
    ensures
        refund_outcome(account_ids, rows, tx).0 == with_status(
            rows,
            tx.id,
            TransactionStatus::Rejected,
        ),
{
}

/// A pending refund of a transaction that already has an approved refund
/// is always rejected.
pub proof fn lemma_refund_of_refunded_rejected(
    account_ids: Set<u128>,
    rows: Seq<DbTransaction>,
    tx: QueueTransaction,
)
    requires
        find_record(rows, tx.id) is Some,
        find_record(rows, tx.id)->Some_0.status == TransactionStatus::Pending,
        tx.refund_transaction_id.is_valid,
        parsed_uuid(tx.refund_transaction_id.value@) is Some,
        has_approved_refund(rows, parsed_uuid(tx.refund_transaction_id.value@)->Some_0),
    ensures
        refund_outcome(account_ids, rows, tx).0 == with_status(
            rows,
            tx.id,
            TransactionStatus::Rejected,
        ),
{
}

/// Rows with ids `a` and `b` both stand as approved refunds of `target`.
pub open spec fn both_refund(rows: Seq<DbTransaction>, a: u128, b: u128, target: u128) -> bool {
    exists|i: int, j: int|
        0 <= i < rows.len() && 0 <= j < rows.len() && rows[i].id == a && rows[j].id == b
            && #[trigger] refunds(rows[i], target) && #[trigger] refunds(rows[j], target)
}

/// Two refunds of one target that both passed their checks: whichever
/// order the store applies their final writes in, at most one of them ends
/// approved, and no transaction has two approved refunds.
pub proof fn lemma_racing_refunds_approve_at_most_one(
    rows: Seq<DbTransaction>,
    first: u128,
    second: u128,
    target: u128,
)
    requires
        single_refund_per_target(rows),
        first != second,
    ensures
        single_refund_per_target(
            link_or_reject(link_or_reject(rows, first, target).0, second, target).0,
        ),
        !both_refund(
            link_or_reject(link_or_reject(rows, first, target).0, second, target).0,
            first,
            second,
            target,
        ),
{
    let middle = link_or_reject(rows, first, target).0;
    lemma_reject_keeps_single_refund(rows, first);
    lemma_reject_keeps_single_refund(middle, second);
    let after = link_or_reject(middle, second, target).0;
    assert(single_refund_per_target(after));
    if both_refund(after, first, second, target) {
        let (i, j) = choose|i: int, j: int|
            0 <= i < after.len() && 0 <= j < after.len() && after[i].id == first && after[j].id == second
                && #[trigger] refunds(after[i], target) && #[trigger] refunds(after[j], target);
        assert(i == j);
    }
}

} // verus!
