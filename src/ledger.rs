//! The ledger model: lookups, conditional writes, the single-refund
//! invariant, and their executable counterparts.
use vstd::prelude::*;
use crate::model::{DbTransaction, TransactionStatus};
use crate::status::{next_status, transition, Transition};

verus! {

/// The first row of `rows`, from index `i` on, whose id is `id`.
pub open spec fn find_from(rows: Seq<DbTransaction>, id: u128, i: int) -> Option<DbTransaction>
    decreases rows.len() - i,
{
    if i < 0 || i >= rows.len() {
        None
    } else if rows[i].id == id {
        Some(rows[i])
    } else {
        find_from(rows, id, i + 1)
    }
}

/// The row of the ledger whose id is `id`, if any.
pub open spec fn find_record(rows: Seq<DbTransaction>, id: u128) -> Option<DbTransaction> {
    find_from(rows, id, 0)
}

/// No two rows share an id.
pub open spec fn unique_ids(rows: Seq<DbTransaction>) -> bool {
    forall|i: int, j: int|
        0 <= i < rows.len() && 0 <= j < rows.len() && #[trigger] rows[i].id == #[trigger] rows[j].id
            ==> i == j
}

/// `r` is an approved transaction that refunds `target`.
pub open spec fn refunds(r: DbTransaction, target: u128) -> bool {
    r.status == TransactionStatus::Approved && r.refund_transaction_id == Some(target)
}

/// Some approved row already refunds `target`.
pub open spec fn has_approved_refund(rows: Seq<DbTransaction>, target: u128) -> bool {
    exists|i: int| 0 <= i < rows.len() && #[trigger] refunds(rows[i], target)
}

/// At most one approved row refunds any given transaction.
pub open spec fn single_refund_per_target(rows: Seq<DbTransaction>) -> bool {
    forall|i: int, j: int, t: u128|
        0 <= i < rows.len() && 0 <= j < rows.len() && #[trigger] refunds(rows[i], t)
            && #[trigger] refunds(rows[j], t) ==> i == j
}

/// A row after a status write: it moves only when it is the row written and
/// still pending.
pub open spec fn row_with_status(r: DbTransaction, id: u128, status: TransactionStatus) -> DbTransaction {
    if r.id == id {
        DbTransaction { status: next_status(r.status, status), ..r }
    } else {
        r
    }
}

/// The ledger after a conditional status write on the row `id`.
pub open spec fn with_status(rows: Seq<DbTransaction>, id: u128, status: TransactionStatus) -> Seq<DbTransaction> {
    rows.map_values(|r: DbTransaction| row_with_status(r, id, status))
}

/// A row after a refund-link write: the pending row `id` gets its target,
/// the target's amount (`target_row`, when the target exists) and its new
/// status in one step.
pub open spec fn row_with_refund_link(
    r: DbTransaction,
    id: u128,
    target: u128,
    target_row: Option<DbTransaction>,
    status: TransactionStatus,
) -> DbTransaction {
    if r.id == id && r.status == TransactionStatus::Pending {
        DbTransaction {
            refund_transaction_id: Some(target),
            amount_cents: match target_row {
                Some(o) => o.amount_cents,
                None => r.amount_cents,
            },
            status,
            ..r
        }
    } else {
        r
    }
}

/// The ledger after an atomic refund-link write on the row `id`: it links
/// the refund to `target`, copies the target's amount and sets `status`.
pub open spec fn with_refund_link(
    rows: Seq<DbTransaction>,
    id: u128,
    target: u128,
    status: TransactionStatus,
) -> Seq<DbTransaction> {
    rows.map_values(
        |r: DbTransaction| row_with_refund_link(r, id, target, find_record(rows, target), status),
    )
}

/// Looks a row up by id.
pub fn find_row(rows: &Vec<DbTransaction>, id: u128) -> (r: Option<DbTransaction>)
    ensures
        r == find_record(rows@, id),
{
    let mut i: usize = 0;
    while i < rows.len()
        invariant
            i <= rows.len(),
            find_from(rows@, id, i as int) == find_record(rows@, id),
        decreases rows.len() - i,
    {
        if rows[i].id == id {
            return Some(rows[i]);
        }
        i = i + 1;
    }
    None
}

/// Rows `a` and `b` are both approved refunds of one same transaction.
pub open spec fn refund_collision(rows: Seq<DbTransaction>, a: int, b: int) -> bool {
    &&& rows[a].status == TransactionStatus::Approved
    &&& rows[b].status == TransactionStatus::Approved
    &&& rows[a].refund_transaction_id is Some
    &&& rows[a].refund_transaction_id == rows[b].refund_transaction_id
}

/// Whether some transaction has two approved refunds in `rows`.
pub fn has_refund_collision(rows: &Vec<DbTransaction>) -> (r: bool)
    ensures
        r == !single_refund_per_target(rows@),
{
    let n = rows.len();
    let mut i: usize = 0;
    while i < n
        invariant
            n == rows.len(),
            i <= n,
            forall|a: int, b: int| 0 <= a < i && a < b < n ==> !refund_collision(rows@, a, b),
        decreases n - i,
    {
        let mut j: usize = i + 1;
        while j < n
            invariant
                n == rows.len(),
                i < n,
                i + 1 <= j <= n,
                forall|a: int, b: int| 0 <= a < i && a < b < n ==> !refund_collision(rows@, a, b),
                forall|b: int| i < b < j ==> !refund_collision(rows@, i as int, b),
            decreases n - j,
        {
            let x = rows[i];
            let y = rows[j];
            if x.status == TransactionStatus::Approved && y.status == TransactionStatus::Approved
                && x.refund_transaction_id.is_some()
                && x.refund_transaction_id == y.refund_transaction_id {
                proof {
                    let t = x.refund_transaction_id->Some_0;
                    assert(refunds(rows@[i as int], t) && refunds(rows@[j as int], t));
                }
                return true;
            }
            j = j + 1;
        }
        i = i + 1;
    }
    proof {
        assert forall|a: int, b: int, t: u128|
            0 <= a < rows@.len() && 0 <= b < rows@.len() && #[trigger] refunds(rows@[a], t)
                && #[trigger] refunds(rows@[b], t) implies a == b by {
            if a < b {
                assert(refund_collision(rows@, a, b));
            } else if b < a {
                assert(refund_collision(rows@, b, a));
            }
        }
    }
    false
}

/// One row after a conditional status write, decided by the state machine.
pub fn set_row_status(r: DbTransaction, id: u128, status: TransactionStatus) -> (out: DbTransaction)
    ensures
        out == row_with_status(r, id, status),
{
    if r.id == id {
        match transition(r.status, status) {
            Transition::Applied(s) => DbTransaction { status: s, ..r },
            Transition::AlreadyProcessed => r,
        }
    } else {
        r
    }
}

/// One row after a refund-link write.
pub fn set_row_refund_link(
    r: DbTransaction,
    id: u128,
    target: u128,
    target_row: Option<DbTransaction>,
    status: TransactionStatus,
) -> (out: DbTransaction)
    ensures
        out == row_with_refund_link(r, id, target, target_row, status),
{
    if r.id == id && r.status == TransactionStatus::Pending {
        let amount_cents = match target_row {
            Some(o) => o.amount_cents,
            None => r.amount_cents,
        };
        DbTransaction { refund_transaction_id: Some(target), amount_cents, status, ..r }
    } else {
        r
    }
}

/// Whether an approved row refunds `target`.
pub fn any_approved_refund(rows: &Vec<DbTransaction>, target: u128) -> (r: bool)
    ensures
        r == has_approved_refund(rows@, target),
{
    let mut i: usize = 0;
    while i < rows.len()
        invariant
            i <= rows.len(),
            forall|k: int| 0 <= k < i ==> !refunds(#[trigger] rows@[k], target),
        decreases rows.len() - i,
    {
        let r = rows[i];
        if r.status == TransactionStatus::Approved && r.refund_transaction_id == Some(target) {
            assert(refunds(rows@[i as int], target));
            return true;
        }
        i = i + 1;
    }
    false
}

/// What a lookup from index `i` returns: a row of `rows` with that id, or
/// `None` when no row from `i` on has it.
pub proof fn lemma_find_from_shape(rows: Seq<DbTransaction>, id: u128, i: int)
    requires
        0 <= i,
    ensures
        find_from(rows, id, i) matches Some(x) ==> exists|k: int|
            i <= k < rows.len() && rows[k] == x && x.id == id,
        find_from(rows, id, i) is None ==> forall|k: int| i <= k < rows.len() ==> rows[k].id != id,
    decreases rows.len() - i,
{
    if i < rows.len() && rows[i].id != id {
        lemma_find_from_shape(rows, id, i + 1);
    }
}

/// No row with id `id` is still pending.
pub open spec fn settled(rows: Seq<DbTransaction>, id: u128) -> bool {
    forall|k: int| 0 <= k < rows.len() && #[trigger] rows[k].id == id ==> rows[k].status
        != TransactionStatus::Pending
}

/// Writes on a settled transaction change nothing.
pub proof fn lemma_writes_on_settled(
    rows: Seq<DbTransaction>,
    id: u128,
    status: TransactionStatus,
    target: u128,
)
    requires
        settled(rows, id),
    ensures
        with_status(rows, id, status) == rows,
        with_refund_link(rows, id, target, status) == rows,
{
    assert(with_status(rows, id, status) =~= rows);
    assert(with_refund_link(rows, id, target, status) =~= rows);
}

/// A write to a terminal status settles the transaction.
pub proof fn lemma_writes_settle(
    rows: Seq<DbTransaction>,
    id: u128,
    status: TransactionStatus,
    target: u128,
)
    requires
        status != TransactionStatus::Pending,
    ensures
        settled(with_status(rows, id, status), id),
        settled(with_refund_link(rows, id, target, status), id),
{
}

/// The row found for a settled transaction is not pending.
pub proof fn lemma_settled_found(rows: Seq<DbTransaction>, id: u128)
    requires
        settled(rows, id),
    ensures
        find_record(rows, id) matches Some(t) ==> t.status != TransactionStatus::Pending,
{
    lemma_find_from_shape(rows, id, 0);
}

/// Rejecting a transaction never gives anything a second approved refund.
pub proof fn lemma_reject_keeps_single_refund(rows: Seq<DbTransaction>, id: u128)
    requires
        single_refund_per_target(rows),
    ensures
        single_refund_per_target(with_status(rows, id, TransactionStatus::Rejected)),
{
    let after = with_status(rows, id, TransactionStatus::Rejected);
    assert forall|i: int, j: int, t: u128|
        0 <= i < after.len() && 0 <= j < after.len() && #[trigger] refunds(after[i], t)
            && #[trigger] refunds(after[j], t) implies i == j by {
        assert(refunds(rows[i], t));
        assert(refunds(rows[j], t));
    }
}

/// A transaction that has left `Pending` is never changed by a store write:
/// statuses only move forward.
pub proof fn lemma_writes_keep_resolved_rows(
    rows: Seq<DbTransaction>,
    id: u128,
    status: TransactionStatus,
    target: u128,
    k: int,
)
    requires
        0 <= k < rows.len(),
        rows[k].status != TransactionStatus::Pending,
    ensures
        with_status(rows, id, status)[k] == rows[k],
        with_refund_link(rows, id, target, status)[k] == rows[k],
{
}

} // verus!
