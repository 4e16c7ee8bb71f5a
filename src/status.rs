//! The status state machine.
use vstd::prelude::*;
use crate::model::TransactionStatus;

verus! {

/// A status other than `Pending`: no transition leaves it.
pub open spec fn is_terminal(s: TransactionStatus) -> bool {
    s != TransactionStatus::Pending
}

/// The status reached from `current` when `requested` is asked for: only a
/// pending transaction moves; any other stays where it is.
pub open spec fn next_status(current: TransactionStatus, requested: TransactionStatus) -> TransactionStatus {
    if current == TransactionStatus::Pending {
        requested
    } else {
        current
    }
}

/// The outcome of asking a transaction to change status.
#[derive(Debug, Clone, Copy, PartialEq, Eq, Structural)]
pub enum Transition {
    /// The transaction was pending and now holds this status.
    Applied(TransactionStatus),
    /// The transaction was already resolved; nothing changes.
    AlreadyProcessed,
}

/// Decides a status change: applied from `Pending`, a no-op from any
/// terminal status.
pub fn transition(current: TransactionStatus, requested: TransactionStatus) -> (r: Transition)
    ensures
        current == TransactionStatus::Pending ==> r == Transition::Applied(requested),
        is_terminal(current) ==> r == Transition::AlreadyProcessed,
{
    match current {
        TransactionStatus::Pending => Transition::Applied(requested),
        _ => Transition::AlreadyProcessed,
    }
}

/// Once a status has left `Pending`, no request moves it again.
pub proof fn lemma_terminal_is_stable(current: TransactionStatus, requested: TransactionStatus)
    requires
        is_terminal(current),
    ensures
        next_status(current, requested) == current,
{
}

/// A second request after the first one resolved the status changes nothing.
pub proof fn lemma_transition_idempotent(
    current: TransactionStatus,
    requested: TransactionStatus,
    again: TransactionStatus,
)
    requires
        is_terminal(requested),
    ensures
        next_status(next_status(current, requested), again) == next_status(current, requested),
{
}

} // verus!
