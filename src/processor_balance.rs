//! The balance request handler.
use vstd::prelude::*;
use crate::balance::{balance_of, fits_i64};
use crate::error::{from_store, is_store_fault, ProcessError};
use crate::model::{Account, BalanceRequest};
use crate::repository::{TAccountRepository, TTransactionRepository};

verus! {

/// Recomputes the balance of the requested account, for the caller to write
/// to the balance cache. An unknown account gives `None`: nothing is to be
/// written. Only a failed store call is an error, and stores that answer
/// every call give none unless the balance does not fit an `i64`.
pub fn process_balance_request<A: TAccountRepository, T: TTransactionRepository>(
    account_repository: &A,
    transaction_repository: &T,
    req: BalanceRequest,
) -> (r: Result<Option<Account>, ProcessError>)
    ensures
        r is Err ==> is_store_fault(r),
        account_repository.available() && transaction_repository.available()
            && transaction_repository.described() && fits_i64(
            balance_of(transaction_repository.records(), req.account_id),
        ) ==> r is Ok,
        account_repository.described() ==> (r matches Ok(entry) ==> (entry is Some
            <==> account_repository.account_ids().contains(req.account_id))),
        r matches Ok(Some(a)) ==> a.id == req.account_id,
        transaction_repository.described() ==> (r matches Ok(Some(a)) ==> a.balance_cents as int
            == balance_of(transaction_repository.records(), req.account_id)),
{
    let account = from_store(account_repository.find_by_id(req.account_id))?;
    if account.is_none() {
        return Ok(None);
    }
    let balance = from_store(transaction_repository.get_balance(req.account_id))?;
    Ok(Some(Account { id: req.account_id, balance_cents: balance }))
}

} // verus!
