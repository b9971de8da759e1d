//! The errors that the ledger reports, and the classes they fall into.

use vstd::prelude::*;

verus! {

/// The class of an error: what a caller can do about it.
#[derive(Debug, Clone, Copy, PartialEq, Eq, Structural)]
pub enum ErrorKind {
    /// The request is malformed; nothing was stored.
    InvalidArgument,
    /// The user or account that the request names does not exist.
    NotFound,
    /// A withdrawal asks for more than the account holds.
    InsufficientFunds,
    /// The store failed; the unit of work was rolled back.
    Persistence,
    /// The credential could not be hashed.
    CredentialHashingFailure,
}

/// Why a request was turned down.
#[derive(Debug, Clone, Copy, PartialEq, Eq, Structural)]
pub enum LedgerError {
    InvalidTransactionKind,
    NonPositiveAmount,
    InvalidAccountKind,
    MalformedAccountId,
    MalformedUserId,
    NegativeOpeningBalance,
    BalanceOutOfRange,
    EmailAlreadyInUse,
    AccountNotFound,
    UserNotFound,
    InsufficientFunds,
    Persistence,
    CredentialHashing,
}

impl LedgerError {
    /// The class of each error.
    pub open spec fn kind_of(self) -> ErrorKind {
        match self {
            LedgerError::InvalidTransactionKind => ErrorKind::InvalidArgument,
            LedgerError::NonPositiveAmount => ErrorKind::InvalidArgument,
            LedgerError::InvalidAccountKind => ErrorKind::InvalidArgument,
            LedgerError::MalformedAccountId => ErrorKind::InvalidArgument,
            LedgerError::MalformedUserId => ErrorKind::InvalidArgument,
            LedgerError::NegativeOpeningBalance => ErrorKind::InvalidArgument,
            LedgerError::BalanceOutOfRange => ErrorKind::InvalidArgument,
            LedgerError::EmailAlreadyInUse => ErrorKind::InvalidArgument,
            LedgerError::AccountNotFound => ErrorKind::NotFound,
            LedgerError::UserNotFound => ErrorKind::NotFound,
            LedgerError::InsufficientFunds => ErrorKind::InsufficientFunds,
            LedgerError::Persistence => ErrorKind::Persistence,
            LedgerError::CredentialHashing => ErrorKind::CredentialHashingFailure,
        }
    }

    /// The text shown to the caller. A store failure is shown as an opaque
    /// internal error.
    pub open spec fn text(self) -> Seq<char> {
        match self {
            LedgerError::InvalidTransactionKind => "Invalid transaction type"@,
            LedgerError::NonPositiveAmount => "The amount must be greater than zero"@,
            LedgerError::InvalidAccountKind => "Invalid account type"@,
            LedgerError::MalformedAccountId => "Failed to parse account id as a UUID"@,
            LedgerError::MalformedUserId => "Failed to parse user id as a UUID"@,
            LedgerError::NegativeOpeningBalance => "The initial balance must not be negative"@,
            LedgerError::BalanceOutOfRange => "The amount is too large for the account"@,
            LedgerError::EmailAlreadyInUse => "Email already in use"@,
            LedgerError::AccountNotFound => "Bank account not found"@,
            LedgerError::UserNotFound => "User not found"@,
            LedgerError::InsufficientFunds => "The account does not have enough funds for the transfer"@,
            LedgerError::Persistence => "Internal server error"@,
            LedgerError::CredentialHashing => "Error at hashing password"@,
        }
    }

    /// A domain error comes from the request or from a rule of the ledger,
    /// not from the machinery underneath.
    pub open spec fn is_domain_error(self) -> bool {
        self.kind_of() == ErrorKind::InvalidArgument || self.kind_of() == ErrorKind::NotFound
            || self.kind_of() == ErrorKind::InsufficientFunds
    }

    /// Whether the caller can mend the request and send it again.
    pub fn recoverable(&self) -> (r: bool)
        ensures
            r == self.is_domain_error(),
    {
        match self.kind() {
            ErrorKind::InvalidArgument => true,
            ErrorKind::NotFound => true,
            ErrorKind::InsufficientFunds => true,
            ErrorKind::Persistence => false,
            ErrorKind::CredentialHashingFailure => false,
        }
    }

    pub fn kind(&self) -> (r: ErrorKind)
        ensures
            r == self.kind_of(),
    {
        match self {
            LedgerError::InvalidTransactionKind => ErrorKind::InvalidArgument,
            LedgerError::NonPositiveAmount => ErrorKind::InvalidArgument,
            LedgerError::InvalidAccountKind => ErrorKind::InvalidArgument,
            LedgerError::MalformedAccountId => ErrorKind::InvalidArgument,
            LedgerError::MalformedUserId => ErrorKind::InvalidArgument,
            LedgerError::NegativeOpeningBalance => ErrorKind::InvalidArgument,
            LedgerError::BalanceOutOfRange => ErrorKind::InvalidArgument,
            LedgerError::EmailAlreadyInUse => ErrorKind::InvalidArgument,
            LedgerError::AccountNotFound => ErrorKind::NotFound,
            LedgerError::UserNotFound => ErrorKind::NotFound,
            LedgerError::InsufficientFunds => ErrorKind::InsufficientFunds,
            LedgerError::Persistence => ErrorKind::Persistence,
            LedgerError::CredentialHashing => ErrorKind::CredentialHashingFailure,
        }
    }

    pub fn message(&self) -> (r: String)
        ensures
            r@ == self.text(),
    {
        match self {
            LedgerError::InvalidTransactionKind => "Invalid transaction type".to_owned(),
            LedgerError::NonPositiveAmount => "The amount must be greater than zero".to_owned(),
            LedgerError::InvalidAccountKind => "Invalid account type".to_owned(),
            LedgerError::MalformedAccountId => "Failed to parse account id as a UUID".to_owned(),
            LedgerError::MalformedUserId => "Failed to parse user id as a UUID".to_owned(),
            LedgerError::NegativeOpeningBalance => "The initial balance must not be negative".to_owned(),
            LedgerError::BalanceOutOfRange => "The amount is too large for the account".to_owned(),
            LedgerError::EmailAlreadyInUse => "Email already in use".to_owned(),
            LedgerError::AccountNotFound => "Bank account not found".to_owned(),
            LedgerError::UserNotFound => "User not found".to_owned(),
            LedgerError::InsufficientFunds => "The account does not have enough funds for the transfer".to_owned(),
            LedgerError::Persistence => "Internal server error".to_owned(),
            LedgerError::CredentialHashing => "Error at hashing password".to_owned(),
        }
    }
}

} // verus!
