use rust_processor::error::ProcessError;
use rust_processor::memory::{MemoryAccountRepository, MemoryTransactionRepository};
use rust_processor::model::{
    Account, DbAccount, DbTransaction, QueueCardId, QueueTransaction, RefundTransactionId,
    TransactionStatus, TransactionType,
};
use rust_processor::processor_transaction::process_transaction;
use rust_processor::repository::TTransactionRepository;

const ACCOUNT_A: u128 = 0xA;
const ACCOUNT_B: u128 = 0xB;

fn accounts(ids: &[u128]) -> MemoryAccountRepository {
    let mut repo = MemoryAccountRepository::new();
    for id in ids {
        repo.insert(DbAccount { id: *id, username: format!("user{}", id), created_at: 0, updated_at: 0 });
    }
    repo
}

fn row(
    id: u128,
    account_id: u128,
    amount_cents: i64,
    transaction_type: TransactionType,
    status: TransactionStatus,
) -> DbTransaction {
    DbTransaction {
        id,
        account_id,
        amount_cents,
        transaction_type,
        refund_transaction_id: None,
        status,
        created_at: 0,
    }
}

fn ledger(rows: &[DbTransaction]) -> MemoryTransactionRepository {
    let mut repo = MemoryTransactionRepository::new();
    for r in rows {
        assert!(repo.insert(*r));
    }
    repo
}

fn uuid_text(id: u128) -> String {
    uuid::Uuid::from_u128(id).to_string()
}

fn event(id: u128, account_id: u128, amount_cents: i64, kind: &str, target: Option<&str>) -> QueueTransaction {
    QueueTransaction {
        id,
        account_id,
        card_id: QueueCardId { value: String::new(), is_valid: false },
        amount_cents,
        status: "PENDING".to_string(),
        transaction_type: kind.to_string(),
        refund_transaction_id: RefundTransactionId {
            value: target.unwrap_or("").to_string(),
            is_valid: target.is_some(),
        },
        idempotency_key: format!("key-{}", id),
        created_at: 0,
        retry_count: 0,
    }
}

fn status_of(repo: &MemoryTransactionRepository, id: u128) -> TransactionStatus {
    repo.find_by_id(id).unwrap().unwrap().status
}

fn scenario_ledger() -> MemoryTransactionRepository {
    ledger(&[
        row(1, ACCOUNT_A, 10000, TransactionType::Deposit, TransactionStatus::Approved),
        row(2, ACCOUNT_A, 4000, TransactionType::Purchase, TransactionStatus::Pending),
    ])
}

#[test]
fn purchase_after_deposit_leaves_six_thousand() {
    let accts = accounts(&[ACCOUNT_A]);
    let mut txs = scenario_ledger();
    let r = process_transaction(&mut txs, &accts, &event(2, ACCOUNT_A, 4000, "PURCHASE", None));
    assert_eq!(r, Ok(Some(Account { id: ACCOUNT_A, balance_cents: 6000 })));
    assert_eq!(status_of(&txs, 2), TransactionStatus::Approved);
}

#[test]
fn refund_of_purchase_restores_ten_thousand() {
    let accts = accounts(&[ACCOUNT_A]);
    let mut txs = scenario_ledger();
    assert!(txs.insert(row(3, ACCOUNT_A, 4000, TransactionType::Refund, TransactionStatus::Pending)));
    let r = process_transaction(&mut txs, &accts, &event(2, ACCOUNT_A, 4000, "PURCHASE", None));
    assert_eq!(r, Ok(Some(Account { id: ACCOUNT_A, balance_cents: 6000 })));
    let target = uuid_text(2);
    let r = process_transaction(&mut txs, &accts, &event(3, ACCOUNT_A, 4000, "REFUND", Some(&target)));
    assert_eq!(r, Ok(Some(Account { id: ACCOUNT_A, balance_cents: 10000 })));
    let refund = txs.find_by_id(3).unwrap().unwrap();
    assert_eq!(refund.status, TransactionStatus::Approved);
    assert_eq!(refund.refund_transaction_id, Some(2));
}

#[test]
fn deposit_for_unknown_account_is_rejected_without_cache_write() {
    let accts = accounts(&[ACCOUNT_A]);
    let mut txs = ledger(&[row(7, ACCOUNT_B, 500, TransactionType::Deposit, TransactionStatus::Pending)]);
    let r = process_transaction(&mut txs, &accts, &event(7, ACCOUNT_B, 500, "DEPOSIT", None));
    assert_eq!(r, Ok(None));
    assert_eq!(status_of(&txs, 7), TransactionStatus::Rejected);
}

#[test]
fn zero_amount_is_rejected_before_type_dispatch() {
    let accts = accounts(&[ACCOUNT_A]);
    let mut txs = ledger(&[row(8, ACCOUNT_A, 0, TransactionType::Purchase, TransactionStatus::Pending)]);
    let r = process_transaction(&mut txs, &accts, &event(8, ACCOUNT_A, 0, "PURCHASE", None));
    assert_eq!(r, Ok(Some(Account { id: ACCOUNT_A, balance_cents: 0 })));
    assert_eq!(status_of(&txs, 8), TransactionStatus::Rejected);
}

#[test]
fn zero_amount_with_unknown_type_is_rejected_not_parsed() {
    let accts = accounts(&[ACCOUNT_A]);
    let mut txs = ledger(&[row(8, ACCOUNT_A, 0, TransactionType::Purchase, TransactionStatus::Pending)]);
    let r = process_transaction(&mut txs, &accts, &event(8, ACCOUNT_A, 0, "TRANSFER", None));
    assert!(r.is_ok());
    assert_eq!(status_of(&txs, 8), TransactionStatus::Rejected);
}

#[test]
fn negative_amount_is_rejected() {
    let accts = accounts(&[ACCOUNT_A]);
    let mut txs = ledger(&[row(9, ACCOUNT_A, 50, TransactionType::Deposit, TransactionStatus::Pending)]);
    let r = process_transaction(&mut txs, &accts, &event(9, ACCOUNT_A, -50, "DEPOSIT", None));
    assert!(r.is_ok());
    assert_eq!(status_of(&txs, 9), TransactionStatus::Rejected);
}

#[test]
fn unknown_type_is_rejected_and_reported() {
    let accts = accounts(&[ACCOUNT_A]);
    let mut txs = ledger(&[row(10, ACCOUNT_A, 50, TransactionType::Deposit, TransactionStatus::Pending)]);
    let r = process_transaction(&mut txs, &accts, &event(10, ACCOUNT_A, 50, "TRANSFER", None));
    assert_eq!(r, Err(ProcessError::InvalidTransactionType("TRANSFER".to_string())));
    assert_eq!(status_of(&txs, 10), TransactionStatus::Rejected);
}

#[test]
fn type_name_is_read_without_regard_to_case() {
    let accts = accounts(&[ACCOUNT_A]);
    let mut txs = ledger(&[row(11, ACCOUNT_A, 250, TransactionType::Deposit, TransactionStatus::Pending)]);
    let r = process_transaction(&mut txs, &accts, &event(11, ACCOUNT_A, 250, "deposit", None));
    assert_eq!(r, Ok(Some(Account { id: ACCOUNT_A, balance_cents: 250 })));
    assert_eq!(status_of(&txs, 11), TransactionStatus::Approved);
}

#[test]
fn deposit_missing_from_ledger_is_a_fault() {
    let accts = accounts(&[ACCOUNT_A]);
    let mut txs = ledger(&[]);
    let r = process_transaction(&mut txs, &accts, &event(12, ACCOUNT_A, 250, "DEPOSIT", None));
    assert_eq!(r, Err(ProcessError::TransactionNotFound(12)));
}

#[test]
fn purchase_beyond_balance_is_rejected() {
    let accts = accounts(&[ACCOUNT_A]);
    let mut txs = ledger(&[
        row(1, ACCOUNT_A, 3000, TransactionType::Deposit, TransactionStatus::Approved),
        row(2, ACCOUNT_A, 3001, TransactionType::Purchase, TransactionStatus::Pending),
    ]);
    let r = process_transaction(&mut txs, &accts, &event(2, ACCOUNT_A, 3001, "PURCHASE", None));
    assert_eq!(r, Ok(Some(Account { id: ACCOUNT_A, balance_cents: 3000 })));
    assert_eq!(status_of(&txs, 2), TransactionStatus::Rejected);
}

#[test]
fn purchase_of_exact_balance_is_approved() {
    let accts = accounts(&[ACCOUNT_A]);
    let mut txs = ledger(&[
        row(1, ACCOUNT_A, 3000, TransactionType::Deposit, TransactionStatus::Approved),
        row(2, ACCOUNT_A, 3000, TransactionType::Purchase, TransactionStatus::Pending),
    ]);
    let r = process_transaction(&mut txs, &accts, &event(2, ACCOUNT_A, 3000, "PURCHASE", None));
    assert_eq!(r, Ok(Some(Account { id: ACCOUNT_A, balance_cents: 0 })));
    assert_eq!(status_of(&txs, 2), TransactionStatus::Approved);
}

#[test]
fn reprocessing_a_deposit_changes_nothing() {
    let accts = accounts(&[ACCOUNT_A]);
    let mut txs = ledger(&[row(1, ACCOUNT_A, 700, TransactionType::Deposit, TransactionStatus::Pending)]);
    let ev = event(1, ACCOUNT_A, 700, "DEPOSIT", None);
    let first = process_transaction(&mut txs, &accts, &ev);
    let after_first = txs.find_by_id(1).unwrap();
    let second = process_transaction(&mut txs, &accts, &ev);
    assert_eq!(first, Ok(Some(Account { id: ACCOUNT_A, balance_cents: 700 })));
    assert_eq!(second, first);
    assert_eq!(txs.find_by_id(1).unwrap(), after_first);
}

#[test]
fn reprocessing_a_refund_changes_nothing() {
    let accts = accounts(&[ACCOUNT_A]);
    let mut txs = ledger(&[
        row(1, ACCOUNT_A, 900, TransactionType::Deposit, TransactionStatus::Approved),
        row(2, ACCOUNT_A, 900, TransactionType::Refund, TransactionStatus::Pending),
    ]);
    let target = uuid_text(1);
    let ev = event(2, ACCOUNT_A, 900, "REFUND", Some(&target));
    let first = process_transaction(&mut txs, &accts, &ev);
    let after_first = txs.find_by_id(2).unwrap();
    let second = process_transaction(&mut txs, &accts, &ev);
    assert_eq!(first, Ok(Some(Account { id: ACCOUNT_A, balance_cents: 0 })));
    assert_eq!(second, first);
    assert_eq!(txs.find_by_id(2).unwrap(), after_first);
    assert_eq!(after_first.unwrap().status, TransactionStatus::Approved);
}

#[test]
fn second_refund_of_one_target_is_rejected() {
    let accts = accounts(&[ACCOUNT_A]);
    let mut txs = ledger(&[
        row(1, ACCOUNT_A, 900, TransactionType::Purchase, TransactionStatus::Approved),
        row(2, ACCOUNT_A, 900, TransactionType::Refund, TransactionStatus::Pending),
        row(3, ACCOUNT_A, 900, TransactionType::Refund, TransactionStatus::Pending),
    ]);
    let target = uuid_text(1);
    let first = process_transaction(&mut txs, &accts, &event(2, ACCOUNT_A, 900, "REFUND", Some(&target)));
    assert_eq!(first, Ok(Some(Account { id: ACCOUNT_A, balance_cents: 0 })));
    let second = process_transaction(&mut txs, &accts, &event(3, ACCOUNT_A, 900, "REFUND", Some(&target)));
    assert_eq!(second, Err(ProcessError::AlreadyRefunded(1)));
    assert_eq!(status_of(&txs, 2), TransactionStatus::Approved);
    assert_eq!(status_of(&txs, 3), TransactionStatus::Rejected);
}

#[test]
fn refund_of_a_refund_is_rejected() {
    let accts = accounts(&[ACCOUNT_A]);
    let mut first_refund = row(2, ACCOUNT_A, 900, TransactionType::Refund, TransactionStatus::Approved);
    first_refund.refund_transaction_id = Some(1);
    let mut txs = ledger(&[
        row(1, ACCOUNT_A, 900, TransactionType::Purchase, TransactionStatus::Approved),
        first_refund,
        row(3, ACCOUNT_A, 900, TransactionType::Refund, TransactionStatus::Pending),
    ]);
    let target = uuid_text(2);
    let r = process_transaction(&mut txs, &accts, &event(3, ACCOUNT_A, 900, "REFUND", Some(&target)));
    assert_eq!(r, Ok(Some(Account { id: ACCOUNT_A, balance_cents: 0 })));
    assert_eq!(status_of(&txs, 3), TransactionStatus::Rejected);
}

#[test]
fn refund_without_target_is_rejected() {
    let accts = accounts(&[ACCOUNT_A]);
    let mut txs = ledger(&[row(3, ACCOUNT_A, 900, TransactionType::Refund, TransactionStatus::Pending)]);
    let r = process_transaction(&mut txs, &accts, &event(3, ACCOUNT_A, 900, "REFUND", None));
    assert_eq!(r, Err(ProcessError::MissingRefundTarget));
    assert_eq!(status_of(&txs, 3), TransactionStatus::Rejected);
}

#[test]
fn refund_with_malformed_target_is_rejected() {
    let accts = accounts(&[ACCOUNT_A]);
    let mut txs = ledger(&[row(3, ACCOUNT_A, 900, TransactionType::Refund, TransactionStatus::Pending)]);
    let r = process_transaction(&mut txs, &accts, &event(3, ACCOUNT_A, 900, "REFUND", Some("not-an-id")));
    assert_eq!(r, Err(ProcessError::InvalidRefundTarget("not-an-id".to_string())));
    assert_eq!(status_of(&txs, 3), TransactionStatus::Rejected);
}

#[test]
fn refund_with_unknown_target_is_rejected() {
    let accts = accounts(&[ACCOUNT_A]);
    let mut txs = ledger(&[row(3, ACCOUNT_A, 900, TransactionType::Refund, TransactionStatus::Pending)]);
    let target = uuid_text(77);
    let r = process_transaction(&mut txs, &accts, &event(3, ACCOUNT_A, 900, "REFUND", Some(&target)));
    assert_eq!(r, Err(ProcessError::RefundTargetNotFound(77)));
    assert_eq!(status_of(&txs, 3), TransactionStatus::Rejected);
}

#[test]
fn refund_of_pending_target_is_rejected() {
    let accts = accounts(&[ACCOUNT_A]);
    let mut txs = ledger(&[
        row(1, ACCOUNT_A, 900, TransactionType::Purchase, TransactionStatus::Pending),
        row(3, ACCOUNT_A, 900, TransactionType::Refund, TransactionStatus::Pending),
    ]);
    let target = uuid_text(1);
    let r = process_transaction(&mut txs, &accts, &event(3, ACCOUNT_A, 900, "REFUND", Some(&target)));
    assert_eq!(r, Ok(Some(Account { id: ACCOUNT_A, balance_cents: 0 })));
    assert_eq!(status_of(&txs, 3), TransactionStatus::Rejected);
}

#[test]
fn refund_of_another_accounts_transaction_is_rejected() {
    let accts = accounts(&[ACCOUNT_A, ACCOUNT_B]);
    let mut txs = ledger(&[
        row(1, ACCOUNT_B, 900, TransactionType::Purchase, TransactionStatus::Approved),
        row(3, ACCOUNT_A, 900, TransactionType::Refund, TransactionStatus::Pending),
    ]);
    let target = uuid_text(1);
    let r = process_transaction(&mut txs, &accts, &event(3, ACCOUNT_A, 900, "REFUND", Some(&target)));
    assert_eq!(r, Ok(Some(Account { id: ACCOUNT_A, balance_cents: 0 })));
    assert_eq!(status_of(&txs, 3), TransactionStatus::Rejected);
}

#[test]
fn refund_for_unknown_account_is_rejected() {
    let accts = accounts(&[ACCOUNT_A]);
    let mut txs = ledger(&[
        row(1, ACCOUNT_B, 900, TransactionType::Purchase, TransactionStatus::Approved),
        row(3, ACCOUNT_B, 900, TransactionType::Refund, TransactionStatus::Pending),
    ]);
    let target = uuid_text(1);
    let r = process_transaction(&mut txs, &accts, &event(3, ACCOUNT_B, 900, "REFUND", Some(&target)));
    assert_eq!(r, Ok(None));
    assert_eq!(status_of(&txs, 3), TransactionStatus::Rejected);
}

#[test]
fn refund_missing_from_ledger_is_a_fault() {
    let accts = accounts(&[ACCOUNT_A]);
    let mut txs = ledger(&[row(1, ACCOUNT_A, 900, TransactionType::Purchase, TransactionStatus::Approved)]);
    let target = uuid_text(1);
    let r = process_transaction(&mut txs, &accts, &event(3, ACCOUNT_A, 900, "REFUND", Some(&target)));
    assert_eq!(r, Err(ProcessError::TransactionNotFound(3)));
}

#[test]
fn resolved_refund_is_left_alone() {
    let accts = accounts(&[ACCOUNT_A]);
    let mut txs = ledger(&[
        row(1, ACCOUNT_A, 900, TransactionType::Purchase, TransactionStatus::Approved),
        row(3, ACCOUNT_A, 900, TransactionType::Refund, TransactionStatus::Rejected),
    ]);
    let target = uuid_text(1);
    let r = process_transaction(&mut txs, &accts, &event(3, ACCOUNT_A, 900, "REFUND", Some(&target)));
    assert_eq!(r, Ok(Some(Account { id: ACCOUNT_A, balance_cents: -900 })));
    assert_eq!(status_of(&txs, 3), TransactionStatus::Rejected);
}

#[test]
fn approved_refund_takes_the_amount_of_its_target() {
    let accts = accounts(&[ACCOUNT_A]);
    let mut txs = scenario_ledger();
    assert!(txs.insert(row(3, ACCOUNT_A, 1, TransactionType::Refund, TransactionStatus::Pending)));
    let r = process_transaction(&mut txs, &accts, &event(2, ACCOUNT_A, 4000, "PURCHASE", None));
    assert_eq!(r, Ok(Some(Account { id: ACCOUNT_A, balance_cents: 6000 })));
    let target = uuid_text(2);
    let r = process_transaction(&mut txs, &accts, &event(3, ACCOUNT_A, 1, "REFUND", Some(&target)));
    assert_eq!(r, Ok(Some(Account { id: ACCOUNT_A, balance_cents: 10000 })));
    assert_eq!(txs.find_by_id(3).unwrap().unwrap().amount_cents, 4000);
}

#[test]
fn purchase_check_uses_the_event_amount() {
    let accts = accounts(&[ACCOUNT_A]);
    let mut txs = ledger(&[
        row(1, ACCOUNT_A, 3000, TransactionType::Deposit, TransactionStatus::Approved),
        row(2, ACCOUNT_A, 100, TransactionType::Purchase, TransactionStatus::Pending),
    ]);
    let r = process_transaction(&mut txs, &accts, &event(2, ACCOUNT_A, 5000, "PURCHASE", None));
    assert_eq!(r, Ok(Some(Account { id: ACCOUNT_A, balance_cents: 3000 })));
    assert_eq!(status_of(&txs, 2), TransactionStatus::Rejected);
}

#[test]
fn reprocessing_an_approved_refund_leaves_it_approved() {
    let accts = accounts(&[ACCOUNT_A]);
    let mut first_refund = row(2, ACCOUNT_A, 900, TransactionType::Refund, TransactionStatus::Approved);
    first_refund.refund_transaction_id = Some(1);
    let mut txs = ledger(&[
        row(1, ACCOUNT_A, 900, TransactionType::Purchase, TransactionStatus::Approved),
        first_refund,
    ]);
    let target = uuid_text(1);
    let r = process_transaction(&mut txs, &accts, &event(2, ACCOUNT_A, 900, "REFUND", Some(&target)));
    assert_eq!(r, Ok(Some(Account { id: ACCOUNT_A, balance_cents: 0 })));
    assert_eq!(txs.find_by_id(2).unwrap(), Some(first_refund));
}
