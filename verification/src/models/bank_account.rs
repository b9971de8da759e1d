//! A bank account and the rule by which its balance moves.

use vstd::prelude::*;
use crate::identity::{fresh_uuid, is_random_uuid, now_rfc3339, parse_uuid, same_text, uuid_parsed};
use crate::models::transaction::{Transaction, TransactionType};
use crate::validator::settled_balance;

verus! {

/// What went wrong with an account.
#[derive(Debug, Clone, Copy, PartialEq, Eq, Structural)]
pub enum BankAccountErrorType {
    InvalidAccountType,
    UserIdParse,
    NotEnoughFunds,
}

#[derive(Debug, Clone, Copy, PartialEq, Eq, Structural)]
pub struct BankAccountError {
    pub action: BankAccountErrorType,
}

impl BankAccountError {
    /// The text of each error.
    pub open spec fn text(self) -> Seq<char> {
        match self.action {
            BankAccountErrorType::InvalidAccountType => "Invalid account type"@,
            BankAccountErrorType::UserIdParse => "Failed to parse user id as a UUID"@,
            BankAccountErrorType::NotEnoughFunds =>
                "The account don't have enough funds to complete the transaction"@,
        }
    }

    pub fn new(action: BankAccountErrorType) -> (e: Self)
        ensures
            e.action == action,
    {
        BankAccountError { action }
    }

    pub fn account_type() -> (e: Self)
        ensures
            e.action == BankAccountErrorType::InvalidAccountType,
    {
        BankAccountError::new(BankAccountErrorType::InvalidAccountType)
    }

    pub fn user_id_parse() -> (e: Self)
        ensures
            e.action == BankAccountErrorType::UserIdParse,
    {
        BankAccountError::new(BankAccountErrorType::UserIdParse)
    }

    pub fn not_enough_funds() -> (e: Self)
        ensures
            e.action == BankAccountErrorType::NotEnoughFunds,
    {
        BankAccountError::new(BankAccountErrorType::NotEnoughFunds)
    }

    pub fn message(&self) -> (r: String)
        ensures
            r@ == self.text(),
    {
        match self.action {
            BankAccountErrorType::InvalidAccountType => "Invalid account type".to_owned(),
            BankAccountErrorType::UserIdParse => "Failed to parse user id as a UUID".to_owned(),
            BankAccountErrorType::NotEnoughFunds =>
                "The account don't have enough funds to complete the transaction".to_owned(),
        }
    }
}

/// The kind of an account.
#[derive(Debug, Clone, Copy, PartialEq, Eq, Structural)]
pub enum AccountType {
    CHECKING,
    INVESTMENT,
    CASH,
}

impl AccountType {
    /// The name under which a kind is stored.
    pub open spec fn label(self) -> Seq<char> {
        match self {
            AccountType::CHECKING => "CHECKING"@,
            AccountType::INVESTMENT => "INVESTMENT"@,
            AccountType::CASH => "CASH"@,
        }
    }

    /// The kind that a text names: the text must be a kind's name, letter
    /// for letter.
    pub open spec fn named(raw: Seq<char>) -> Option<AccountType> {
        if raw == AccountType::CHECKING.label() {
            Some(AccountType::CHECKING)
        } else if raw == AccountType::INVESTMENT.label() {
            Some(AccountType::INVESTMENT)
        } else if raw == AccountType::CASH.label() {
            Some(AccountType::CASH)
        } else {
            None
        }
    }

    pub fn from_raw_string(raw: &str) -> (r: Result<AccountType, BankAccountError>)
        ensures
            r == match Self::named(raw@) {
                Some(kind) => Ok::<AccountType, BankAccountError>(kind),
                None => Err(BankAccountError { action: BankAccountErrorType::InvalidAccountType }),
            },
    {
        if same_text(raw, "CHECKING") {
            Ok(AccountType::CHECKING)
        } else if same_text(raw, "INVESTMENT") {
            Ok(AccountType::INVESTMENT)
        } else if same_text(raw, "CASH") {
            Ok(AccountType::CASH)
        } else {
            Err(BankAccountError::account_type())
        }
    }

    pub fn name(&self) -> (r: String)
        ensures
            r@ == self.label(),
    {
        match self {
            AccountType::CASH => "CASH".to_owned(),
            AccountType::CHECKING => "CHECKING".to_owned(),
            AccountType::INVESTMENT => "INVESTMENT".to_owned(),
        }
    }

    /// Every kind is the one that its own name names.
    pub proof fn law_name_reads_back(kind: AccountType)
        ensures
            Self::named(kind.label()) == Some(kind),
    {
        reveal_strlit("CHECKING");
        reveal_strlit("INVESTMENT");
        reveal_strlit("CASH");
        assert("CHECKING"@.len() == 8);
        assert("INVESTMENT"@.len() == 10);
        assert("CASH"@.len() == 4);
    }
}

/// A bank account. The balance is a whole number of minor units (cents).
#[derive(Debug)]
pub struct BankAccount {
    pub id: u128,
    pub name: String,
    pub balance: i64,
    pub account_type: AccountType,
    pub user_id: u128,
    pub created_at: String,
}

/// What an account holds, as mathematical values.
pub struct BankAccountView {
    pub id: u128,
    pub name: Seq<char>,
    pub balance: int,
    pub account_type: AccountType,
    pub user_id: u128,
    pub created_at: Seq<char>,
}

impl View for BankAccount {
    type V = BankAccountView;

    open spec fn view(&self) -> BankAccountView {
        BankAccountView {
            id: self.id,
            name: self.name@,
            balance: self.balance as int,
            account_type: self.account_type,
            user_id: self.user_id,
            created_at: self.created_at@,
        }
    }
}

/// A row of the accounts table, as the store hands it over.
#[derive(Debug)]
pub struct AccountRow {
    pub id: u128,
    pub name: String,
    pub balance: i64,
    pub kind: String,
    pub user_id: u128,
    pub created_at: String,
}

impl BankAccount {
    /// An account as the store may hold it: its balance is not negative.
    pub open spec fn wf(&self) -> bool {
        self.balance >= 0
    }

    /// The account for an owner whose identifier has been read already:
    /// `owner` is `None` where the identifier was malformed.
    pub fn opened(
        id: u128,
        created_at: String,
        name: String,
        balance: i64,
        account_type: AccountType,
        owner: Option<u128>,
    ) -> (r: Result<BankAccount, BankAccountError>)
        ensures
            match owner {
                Some(user_id) => r is Ok && r->Ok_0@ == (BankAccountView {
                    id,
                    name: name@,
                    balance: balance as int,
                    account_type,
                    user_id,
                    created_at: created_at@,
                }),
                None => r is Err && r->Err_0.action == BankAccountErrorType::UserIdParse,
            },
    {
        match owner {
            Some(user_id) => Ok(
                BankAccount { id, name, balance, account_type, user_id, created_at },
            ),
            None => Err(BankAccountError::user_id_parse()),
        }
    }

    /// A new account under a random identifier, created now, for the owner
    /// whose identifier `user_id` spells.
    pub fn new(name: String, balance: i64, account_type: AccountType, user_id: String) -> (r: Result<
        BankAccount,
        BankAccountError,
    >)
        ensures
            match uuid_parsed(user_id@) {
                Some(owner) => r is Ok && is_random_uuid(r->Ok_0.id) && r->Ok_0@
                    == (BankAccountView {
                    id: r->Ok_0.id,
                    name: name@,
                    balance: balance as int,
                    account_type,
                    user_id: owner,
                    created_at: r->Ok_0@.created_at,
                }),
                None => r is Err && r->Err_0.action == BankAccountErrorType::UserIdParse,
            },
    {
        let owner: Option<u128> = parse_uuid(user_id.as_str());
        match owner {
            Some(_) => {
                let id: u128 = fresh_uuid();
                let created_at: String = now_rfc3339();
                BankAccount::opened(id, created_at, name, balance, account_type, owner)
            },
            None => Err(BankAccountError::user_id_parse()),
        }
    }

    /// Applies a transaction to the balance. A withdrawal that exceeds the
    /// balance is refused and leaves the account as it was. The new
    /// balance must fit the machine's 64-bit integers.
    pub fn update_balance(&mut self, transaction: &Transaction) -> (r: Result<(), BankAccountError>)
        requires
            match settled_balance(
                old(self).balance as int,
                transaction.transaction_type,
                transaction.amount as int,
            ) {
                Some(balance) => i64::MIN <= balance <= i64::MAX,
                None => true,
            },
        ensures
            match settled_balance(
                old(self).balance as int,
                transaction.transaction_type,
                transaction.amount as int,
            ) {
                Some(balance) => r is Ok && final(self)@ == (BankAccountView {
                    balance,
                    ..old(self)@
                }),
                None => r is Err && r->Err_0.action == BankAccountErrorType::NotEnoughFunds
                    && final(self)@ == old(self)@,
            },
            old(self).wf() && transaction.amount >= 0 ==> final(self).wf(),
    {
        match transaction.transaction_type {
            TransactionType::OUTCOME => {
                if self.balance < transaction.amount {
                    return Err(BankAccountError::not_enough_funds());
                }
                self.balance = self.balance - transaction.amount;
                Ok(())
            },
            TransactionType::INCOME => {
                self.balance = self.balance + transaction.amount;
                Ok(())
            },
        }
    }

    /// The account that a stored row describes. A row whose kind is no
    /// account kind is refused.
    pub fn from_pg_row(row: AccountRow) -> (r: Result<BankAccount, BankAccountError>)
        ensures
            match AccountType::named(row.kind@) {
                Some(account_type) => r is Ok && r->Ok_0@ == (BankAccountView {
                    id: row.id,
                    name: row.name@,
                    balance: row.balance as int,
                    account_type,
                    user_id: row.user_id,
                    created_at: row.created_at@,
                }),
                None => r is Err && r->Err_0.action == BankAccountErrorType::InvalidAccountType,
            },
    {
        let account_type = AccountType::from_raw_string(row.kind.as_str())?;
        Ok(
            BankAccount {
                id: row.id,
                name: row.name,
                balance: row.balance,
                account_type,
                user_id: row.user_id,
                created_at: row.created_at,
            },
        )
    }
}

} // verus!
