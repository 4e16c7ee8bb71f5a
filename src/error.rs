//! Errors reported by the processing engine.
use vstd::prelude::*;
use crate::repository::StoreError;

verus! {

/// Why processing an event did not complete normally.
///
/// `Store` is a dependency fault and `TransactionNotFound` a data-integrity
/// fault; the others reject a transaction on malformed input or on a refund
/// rule, and are reported so that they can be told apart from silent
/// business rejections.
#[derive(Debug, Clone, PartialEq, Eq)]
pub enum ProcessError {
    /// A store call failed.
    Store(StoreError),
    /// The event names a transaction that the ledger does not hold.
    TransactionNotFound(u128),
    /// The event's type is none of the known ones; holds the parse message.
    InvalidTransactionType(String),
    /// A refund without a refund target.
    MissingRefundTarget,
    /// A refund whose target is not a well-formed id; holds that text.
    InvalidRefundTarget(String),
    /// A refund whose target the ledger does not hold.
    RefundTargetNotFound(u128),
    /// A refund of a transaction that already has an approved refund.
    AlreadyRefunded(u128),
}

/// The result reports a failed store call.
pub open spec fn is_store_fault<V>(r: Result<V, ProcessError>) -> bool {
    r matches Err(ProcessError::Store(_))
}

/// Lifts a store result into the engine's error type.
pub fn from_store<V>(r: Result<V, StoreError>) -> (out: Result<V, ProcessError>)
    ensures
        r matches Ok(v) ==> out == Ok::<V, ProcessError>(v),
        r matches Err(e) ==> out == Err::<V, ProcessError>(ProcessError::Store(e)),
{
    match r {
        Ok(v) => Ok(v),
        Err(e) => Err(ProcessError::Store(e)),
    }
}

} // verus!
