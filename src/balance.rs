//! The balance computation: an account's balance derived from scratch
//! from its approved transactions, and the laws it obeys.
use vstd::prelude::*;
use crate::ledger::{find_record, find_row, lemma_find_from_shape, unique_ids};
use crate::model::{DbTransaction, TransactionStatus, TransactionType};

verus! {

/// What a refund of `amount` contributes, given the transaction it refunds:
/// the reverse of that transaction's own effect, or nothing when the target
/// cannot be resolved or is itself a refund.
pub open spec fn refund_effect(refunded: Option<DbTransaction>, amount: int) -> int {
    match refunded {
        Some(o) => match o.transaction_type {
            TransactionType::Deposit => -amount,
            TransactionType::Purchase => amount,
            TransactionType::Refund => 0,
        },
        None => 0,
    }
}

/// The signed contribution of row `r` to its account's balance; refund
/// targets are resolved in `ledger`.
pub open spec fn effect(ledger: Seq<DbTransaction>, r: DbTransaction) -> int {
    match r.transaction_type {
        TransactionType::Deposit => r.amount_cents as int,
        TransactionType::Purchase => -(r.amount_cents as int),
        TransactionType::Refund => match r.refund_transaction_id {
            Some(t) => refund_effect(find_record(ledger, t), r.amount_cents as int),
            None => 0,
        },
    }
}

/// Row `r` is part of the balance of `account`: it belongs to the account
/// and is approved.
pub open spec fn counts_toward(r: DbTransaction, account_id: u128) -> bool {
    r.account_id == account_id && r.status == TransactionStatus::Approved
}

/// The sum of the effects of those `rows` that count toward `account_id`.
pub open spec fn sum_effects(ledger: Seq<DbTransaction>, rows: Seq<DbTransaction>, account_id: u128) -> int
    decreases rows.len(),
{
    if rows.len() == 0 {
        0
    } else {
        sum_effects(ledger, rows.drop_last(), account_id) + if counts_toward(rows.last(), account_id) {
            effect(ledger, rows.last())
        } else {
            0
        }
    }
}

/// The balance of an account: the sum of the effects of its approved
/// transactions. An empty history gives 0.
pub open spec fn balance_of(ledger: Seq<DbTransaction>, account_id: u128) -> int {
    sum_effects(ledger, ledger, account_id)
}

/// `v` can be held by an `i64`.
pub open spec fn fits_i64(v: int) -> bool {
    i64::MIN <= v <= i64::MAX
}

/// The effect of one row, as an integer that cannot overflow.
fn row_effect(ledger: &Vec<DbTransaction>, r: DbTransaction) -> (e: i128)
    ensures
        e == effect(ledger@, r),
        -0x8000_0000_0000_0000 <= e <= 0x8000_0000_0000_0000,
{
    let amount = r.amount_cents as i128;
    match r.transaction_type {
        TransactionType::Deposit => amount,
        TransactionType::Purchase => -amount,
        TransactionType::Refund => match r.refund_transaction_id {
            Some(t) => match find_row(ledger, t) {
                Some(o) => match o.transaction_type {
                    TransactionType::Deposit => -amount,
                    TransactionType::Purchase => amount,
                    TransactionType::Refund => 0,
                },
                None => 0,
            },
            None => 0,
        },
    }
}

/// Recomputes an account's balance from scratch over the whole ledger.
/// Returns `None` exactly when the balance does not fit an `i64`.
pub fn compute_balance(ledger: &Vec<DbTransaction>, account_id: u128) -> (r: Option<i64>)
    ensures
        r is Some <==> fits_i64(balance_of(ledger@, account_id)),
        r matches Some(b) ==> b as int == balance_of(ledger@, account_id),
{
    let mut acc: i128 = 0;
    let mut i: usize = 0;
    while i < ledger.len()
        invariant
            i <= ledger.len(),
            acc as int == sum_effects(ledger@, ledger@.take(i as int), account_id),
            -(i as int) * 0x8000_0000_0000_0000 <= acc <= (i as int) * 0x8000_0000_0000_0000,
        decreases ledger.len() - i,
    {
        let r = ledger[i];
        proof {
            assert(ledger@.take(i + 1).drop_last() == ledger@.take(i as int));
            assert(ledger@.take(i + 1).last() == r);
        }
        if r.account_id == account_id && r.status == TransactionStatus::Approved {
            let e = row_effect(ledger, r);
            acc = acc + e;
        }
        i = i + 1;
    }
    assert(ledger@.take(i as int) == ledger@);
    if acc < i64::MIN as i128 || acc > i64::MAX as i128 {
        None
    } else {
        Some(acc as i64)
    }
}

/// The sum of the amounts of the approved rows of type `kind` of an account.
pub open spec fn sum_amounts(rows: Seq<DbTransaction>, account_id: u128, kind: TransactionType) -> int
    decreases rows.len(),
{
    if rows.len() == 0 {
        0
    } else {
        sum_amounts(rows.drop_last(), account_id, kind) + if counts_toward(rows.last(), account_id)
            && rows.last().transaction_type == kind {
            rows.last().amount_cents as int
        } else {
            0
        }
    }
}

/// The sum of the effects of an account's approved refunds, each the
/// reverse of the transaction it refunds.
pub open spec fn sum_refund_reversals(
    ledger: Seq<DbTransaction>,
    rows: Seq<DbTransaction>,
    account_id: u128,
) -> int
    decreases rows.len(),
{
    if rows.len() == 0 {
        0
    } else {
        sum_refund_reversals(ledger, rows.drop_last(), account_id) + if counts_toward(
            rows.last(),
            account_id,
        ) && rows.last().transaction_type == TransactionType::Refund {
            effect(ledger, rows.last())
        } else {
            0
        }
    }
}

proof fn lemma_sum_effects_split(ledger: Seq<DbTransaction>, rows: Seq<DbTransaction>, account_id: u128)
    ensures
        sum_effects(ledger, rows, account_id) == sum_amounts(rows, account_id, TransactionType::Deposit)
            - sum_amounts(rows, account_id, TransactionType::Purchase) + sum_refund_reversals(
            ledger,
            rows,
            account_id,
        ),
    decreases rows.len(),
{
    if rows.len() > 0 {
        lemma_sum_effects_split(ledger, rows.drop_last(), account_id);
    }
}

/// The balance of an account is the sum of its approved deposits, less the
/// sum of its approved purchases, plus the reversed effects of its approved
/// refunds.
pub proof fn lemma_balance_decomposition(ledger: Seq<DbTransaction>, account_id: u128)
    ensures
        balance_of(ledger, account_id) == sum_amounts(ledger, account_id, TransactionType::Deposit)
            - sum_amounts(ledger, account_id, TransactionType::Purchase) + sum_refund_reversals(
            ledger,
            ledger,
            account_id,
        ),
{
    lemma_sum_effects_split(ledger, ledger, account_id);
}

/// Row `r` contributes to the account sum, and by how much.
pub open spec fn contribution(ledger: Seq<DbTransaction>, r: DbTransaction, account_id: u128) -> int {
    if counts_toward(r, account_id) {
        effect(ledger, r)
    } else {
        0
    }
}

proof fn lemma_sum_effects_remove(
    ledger: Seq<DbTransaction>,
    rows: Seq<DbTransaction>,
    account_id: u128,
    j: int,
)
    requires
        0 <= j < rows.len(),
    ensures
        sum_effects(ledger, rows, account_id) == sum_effects(ledger, rows.remove(j), account_id)
            + contribution(ledger, rows[j], account_id),
    decreases rows.len(),
{
    if j == rows.len() - 1 {
        assert(rows.remove(j) == rows.drop_last());
    } else {
        lemma_sum_effects_remove(ledger, rows.drop_last(), account_id, j);
        assert(rows.remove(j).drop_last() == rows.drop_last().remove(j));
        assert(rows.remove(j).last() == rows.last());
    }
}

proof fn lemma_sum_effects_permutation(
    ledger: Seq<DbTransaction>,
    rows1: Seq<DbTransaction>,
    rows2: Seq<DbTransaction>,
    account_id: u128,
)
    requires
        rows1.to_multiset() == rows2.to_multiset(),
    ensures
        sum_effects(ledger, rows1, account_id) == sum_effects(ledger, rows2, account_id),
    decreases rows1.len(),
{
    broadcast use vstd::seq_lib::group_to_multiset_ensures;

    if rows1.len() == 0 {
        assert(rows2.to_multiset().len() == 0);
        assert(rows2.len() == 0);
    } else {
        let x = rows1.last();
        let rest = rows1.drop_last();
        assert(rows1 == rest.push(x));
        assert(rows1.to_multiset().count(x) > 0);
        assert(rows2.contains(x));
        let j = choose|j: int| 0 <= j < rows2.len() && rows2[j] == x;
        assert(rows2.remove(j).to_multiset() == rows2.to_multiset().remove(x));
        assert(rest.to_multiset() =~= rows1.to_multiset().remove(x));
        lemma_sum_effects_permutation(ledger, rest, rows2.remove(j), account_id);
        lemma_sum_effects_remove(ledger, rows2, account_id, j);
    }
}

proof fn lemma_find_same_rows(rows1: Seq<DbTransaction>, rows2: Seq<DbTransaction>, id: u128)
    requires
        unique_ids(rows1),
        rows1.to_multiset() == rows2.to_multiset(),
    ensures
        find_record(rows1, id) == find_record(rows2, id),
{
    broadcast use vstd::seq_lib::group_to_multiset_ensures;

    lemma_find_from_shape(rows1, id, 0);
    lemma_find_from_shape(rows2, id, 0);
    match find_record(rows2, id) {
        Some(y) => {
            let m = choose|m: int| 0 <= m < rows2.len() && rows2[m] == y && y.id == id;
            assert(rows2.contains(y));
            assert(rows2.to_multiset().count(y) > 0);
            assert(rows1.contains(y));
            match find_record(rows1, id) {
                Some(x) => {
                    let k = choose|k: int| 0 <= k < rows1.len() && rows1[k] == x && x.id == id;
                    let n = choose|n: int| 0 <= n < rows1.len() && rows1[n] == y;
                    assert(rows1[k].id == rows1[n].id);
                },
                None => {
                    let n = choose|n: int| 0 <= n < rows1.len() && rows1[n] == y;
                    assert(rows1[n].id == id);
                },
            }
        },
        None => {
            match find_record(rows1, id) {
                Some(x) => {
                    let k = choose|k: int| 0 <= k < rows1.len() && rows1[k] == x && x.id == id;
                    assert(rows1.contains(x));
                    assert(rows1.to_multiset().count(x) > 0);
                    assert(rows2.contains(x));
                    let n = choose|n: int| 0 <= n < rows2.len() && rows2[n] == x;
                    assert(rows2[n].id == id);
                },
                None => {},
            }
        },
    }
}

proof fn lemma_sum_effects_same_lookup(
    ledger1: Seq<DbTransaction>,
    ledger2: Seq<DbTransaction>,
    rows: Seq<DbTransaction>,
    account_id: u128,
)
    requires
        forall|id: u128| find_record(ledger1, id) == find_record(ledger2, id),
    ensures
        sum_effects(ledger1, rows, account_id) == sum_effects(ledger2, rows, account_id),
    decreases rows.len(),
{
    if rows.len() > 0 {
        lemma_sum_effects_same_lookup(ledger1, ledger2, rows.drop_last(), account_id);
    }
}

/// The balance does not depend on the order in which the ledger holds its
/// rows: two ledgers with the same rows, ids unique, give the same balance.
pub proof fn lemma_balance_order_independent(
    ledger1: Seq<DbTransaction>,
    ledger2: Seq<DbTransaction>,
    account_id: u128,
)
    requires
        unique_ids(ledger1),
        ledger1.to_multiset() == ledger2.to_multiset(),
    ensures
        balance_of(ledger1, account_id) == balance_of(ledger2, account_id),
{
    assert forall|id: u128| find_record(ledger1, id) == find_record(ledger2, id) by {
        lemma_find_same_rows(ledger1, ledger2, id);
    }
    lemma_sum_effects_permutation(ledger1, ledger1, ledger2, account_id);
    lemma_sum_effects_same_lookup(ledger1, ledger2, ledger2, account_id);
}

} // verus!
