//! The data of the ledger and of the inbound events.
use vstd::prelude::*;
use vstd::string::StringExecFns;

verus! {

/// Lifecycle state of a ledger transaction.
#[derive(Debug, Clone, Copy, PartialEq, Eq, Structural)]
pub enum TransactionStatus {
    Pending,
    Approved,
    Rejected,
    Error,
}

/// The name under which a status is stored in the ledger.
pub open spec fn status_name(s: TransactionStatus) -> Seq<char> {
    match s {
        TransactionStatus::Pending => "PENDING"@,
        TransactionStatus::Approved => "APPROVED"@,
        TransactionStatus::Rejected => "REJECTED"@,
        TransactionStatus::Error => "ERROR"@,
    }
}

impl TransactionStatus {
    /// The stored name of this status.
    pub fn as_str(&self) -> (r: &'static str)
        ensures
            r@ == status_name(*self),
    {
        match self {
            TransactionStatus::Pending => "PENDING",
            TransactionStatus::Approved => "APPROVED",
            TransactionStatus::Rejected => "REJECTED",
            TransactionStatus::Error => "ERROR",
        }
    }

    /// The status stored under the name `name`, if any.
    pub fn from_name(name: &str) -> (r: Option<TransactionStatus>)
        ensures
            r matches Some(s) ==> status_name(s) == name@,
            r is None ==> forall|s: TransactionStatus| status_name(s) != name@,
    {
        let n = String::from_str(name);
        if n == String::from_str("PENDING") {
            Some(TransactionStatus::Pending)
        } else if n == String::from_str("APPROVED") {
            Some(TransactionStatus::Approved)
        } else if n == String::from_str("REJECTED") {
            Some(TransactionStatus::Rejected)
        } else if n == String::from_str("ERROR") {
            Some(TransactionStatus::Error)
        } else {
            None
        }
    }
}

/// The kind of a ledger transaction; it decides the sign of its effect.
#[derive(Debug, Clone, Copy, PartialEq, Eq, Structural)]
pub enum TransactionType {
    Deposit,
    Purchase,
    Refund,
}

/// The upper-case name of a transaction type.
pub open spec fn kind_name(t: TransactionType) -> Seq<char> {
    match t {
        TransactionType::Deposit => "DEPOSIT"@,
        TransactionType::Purchase => "PURCHASE"@,
        TransactionType::Refund => "REFUND"@,
    }
}

/// The type whose upper-case name is exactly `u`, if any.
pub open spec fn type_from_name(u: Seq<char>) -> Option<TransactionType> {
    if u == "DEPOSIT"@ {
        Some(TransactionType::Deposit)
    } else if u == "PURCHASE"@ {
        Some(TransactionType::Purchase)
    } else if u == "REFUND"@ {
        Some(TransactionType::Refund)
    } else {
        None
    }
}

/// What `str::to_uppercase` makes of a string.
pub uninterp spec fn uppercase_of(s: Seq<char>) -> Seq<char>;

/// Relies on `str::to_uppercase`: its result depends on the characters alone.
#[verifier::external_body]
fn to_uppercase(s: &str) -> (r: String)
    ensures
        r@ == uppercase_of(s@),
{
    s.to_uppercase()
}

impl TransactionType {
    /// The stored name of this type.
    pub fn as_str(&self) -> (r: &'static str)
        ensures
            r@ == kind_name(*self),
    {
        match self {
            TransactionType::Deposit => "DEPOSIT",
            TransactionType::Purchase => "PURCHASE",
            TransactionType::Refund => "REFUND",
        }
    }

    /// Recognises an already upper-cased type name.
    pub fn from_upper_name(u: &str) -> (r: Option<TransactionType>)
        ensures
            r == type_from_name(u@),
    {
        let u = String::from_str(u);
        if u == String::from_str("DEPOSIT") {
            Some(TransactionType::Deposit)
        } else if u == String::from_str("PURCHASE") {
            Some(TransactionType::Purchase)
        } else if u == String::from_str("REFUND") {
            Some(TransactionType::Refund)
        } else {
            None
        }
    }

    /// Parses a type name without regard to letter case.
    pub fn from_str(s: &str) -> (r: Result<TransactionType, String>)
        ensures
            r is Ok <==> type_from_name(uppercase_of(s@)) is Some,
            r matches Ok(t) ==> type_from_name(uppercase_of(s@)) == Some(t),
            r matches Err(m) ==> m@ == "Invalid transaction type: "@ + s@,
    {
        let upper = to_uppercase(s);
        match TransactionType::from_upper_name(upper.as_str()) {
            Some(t) => Ok(t),
            None => Err(String::from_str("Invalid transaction type: ").concat(s)),
        }
    }
}

/// A ledger row: one transaction as the store holds it.
///
/// `amount_cents` is a magnitude; the sign of its effect on a balance comes
/// from `transaction_type`. `created_at` counts microseconds since the Unix
/// epoch, UTC.
#[derive(Debug, Clone, Copy, PartialEq, Eq, Structural)]
pub struct DbTransaction {
    pub id: u128,
    pub account_id: u128,
    pub amount_cents: i64,
    pub transaction_type: TransactionType,
    pub refund_transaction_id: Option<u128>,
    pub status: TransactionStatus,
    pub created_at: i64,
}

/// An account as the store holds it; timestamps count microseconds since
/// the Unix epoch, UTC. Accounts carry no balance: it is always derived.
#[derive(Debug, Clone)]
pub struct DbAccount {
    pub id: u128,
    pub username: String,
    pub created_at: i64,
    pub updated_at: i64,
}

/// A balance derived for an account: the value written to the balance cache.
#[derive(Debug, Clone, Copy, PartialEq, Eq, Structural)]
pub struct Account {
    pub id: u128,
    pub balance_cents: i64,
}

/// The card reference carried by a queued transaction.
#[derive(Debug, Clone)]
pub struct QueueCardId {
    pub value: String,
    pub is_valid: bool,
}

/// The nullable refund target of a queued transaction: `is_valid` tells an
/// absent target from one that is present (and may still be malformed).
#[derive(Debug, Clone)]
pub struct RefundTransactionId {
    pub value: String,
    pub is_valid: bool,
}

/// A transaction event as delivered by the inbound queue.
///
/// `status` and `retry_count` are informational: the authoritative status
/// is read again from the store. `created_at` counts microseconds since the
/// Unix epoch, UTC.
#[derive(Debug, Clone)]
pub struct QueueTransaction {
    pub id: u128,
    pub account_id: u128,
    pub card_id: QueueCardId,
    pub amount_cents: i64,
    pub status: String,
    pub transaction_type: String,
    pub refund_transaction_id: RefundTransactionId,
    pub idempotency_key: String,
    pub created_at: i64,
    pub retry_count: i32,
}

/// A request to recompute and republish one account's balance.
#[derive(Debug, Clone, Copy, PartialEq, Eq, Structural)]
pub struct BalanceRequest {
    pub account_id: u128,
}

/// A bare transaction as first produced upstream, before it is stored.
#[derive(Debug, Clone)]
pub struct Transaction {
    pub id: String,
    pub account_id: String,
    pub amount_cents: i64,
    pub transaction_type: String,
}

} // verus!
