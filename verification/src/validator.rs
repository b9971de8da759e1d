//! The checks that a request passes before anything is stored. Each is a
//! pure function of its arguments.

use vstd::prelude::*;
use crate::error::LedgerError;
use crate::models::bank_account::AccountType;
use crate::models::transaction::TransactionType;

verus! {

/// The balance that a movement leaves behind, or `None` where a withdrawal
/// asks for more than the account holds.
pub open spec fn settled_balance(balance: int, kind: TransactionType, amount: int) -> Option<int> {
    match kind {
        TransactionType::OUTCOME => if balance < amount {
            None
        } else {
            Some(balance - amount)
        },
        TransactionType::INCOME => Some(balance + amount),
    }
}

/// The account kind that a text names.
pub fn parse_account_kind(raw: &str) -> (r: Result<AccountType, LedgerError>)
    ensures
        r == match AccountType::named(raw@) {
            Some(kind) => Ok::<AccountType, LedgerError>(kind),
            None => Err(LedgerError::InvalidAccountKind),
        },
{
    match AccountType::from_raw_string(raw) {
        Ok(kind) => Ok(kind),
        Err(_) => Err(LedgerError::InvalidAccountKind),
    }
}

/// The transaction kind that a numeric code stands for.
pub fn parse_transaction_kind(code: i32) -> (r: Result<TransactionType, LedgerError>)
    ensures
        r == match TransactionType::from_code(code as int) {
            Some(kind) => Ok::<TransactionType, LedgerError>(kind),
            None => Err(LedgerError::InvalidTransactionKind),
        },
{
    match TransactionType::from_proto(&code) {
        Ok(kind) => Ok(kind),
        Err(_) => Err(LedgerError::InvalidTransactionKind),
    }
}

/// An amount must be greater than zero.
pub fn check_amount(amount: i64) -> (r: Result<(), LedgerError>)
    ensures
        r == if amount > 0 {
            Ok::<(), LedgerError>(())
        } else {
            Err(LedgerError::NonPositiveAmount)
        },
{
    if amount > 0 {
        Ok(())
    } else {
        Err(LedgerError::NonPositiveAmount)
    }
}

/// A withdrawal must not exceed the balance; a deposit always passes.
pub fn check_sufficiency(kind: TransactionType, amount: i64, current_balance: i64) -> (r: Result<
    (),
    LedgerError,
>)
    ensures
        r == if settled_balance(current_balance as int, kind, amount as int) is Some {
            Ok::<(), LedgerError>(())
        } else {
            Err(LedgerError::InsufficientFunds)
        },
        r is Err <==> kind == TransactionType::OUTCOME && current_balance < amount,
{
    if kind == TransactionType::OUTCOME && current_balance < amount {
        Err(LedgerError::InsufficientFunds)
    } else {
        Ok(())
    }
}

} // verus!
