//! A transaction: one movement of money into or out of an account.

use vstd::prelude::*;
use crate::identity::{fresh_id, is_fresh_id, now_rfc3339};

verus! {

/// The direction of a movement.
#[derive(Debug, Clone, Copy, PartialEq, Eq, Structural)]
pub enum TransactionType {
    INCOME,
    OUTCOME,
}

impl TransactionType {
    /// The kind that a numeric code stands for: 0 is a deposit, 1 a
    /// withdrawal, and no other code stands for anything.
    pub open spec fn from_code(code: int) -> Option<TransactionType> {
        if code == 0 {
            Some(TransactionType::INCOME)
        } else if code == 1 {
            Some(TransactionType::OUTCOME)
        } else {
            None
        }
    }

    /// The name under which a kind is stored.
    pub open spec fn label(self) -> Seq<char> {
        match self {
            TransactionType::INCOME => "INCOME"@,
            TransactionType::OUTCOME => "OUTCOME"@,
        }
    }

    pub fn from_proto(value: &i32) -> (r: Result<Self, String>)
        ensures
            match Self::from_code(*value as int) {
                Some(kind) => r == Ok::<Self, String>(kind),
                None => r is Err && r->Err_0@ == "Invalid transaction type"@,
            },
    {
        if *value == 0 {
            Ok(TransactionType::INCOME)
        } else if *value == 1 {
            Ok(TransactionType::OUTCOME)
        } else {
            Err("Invalid transaction type".to_owned())
        }
    }

    pub fn name(&self) -> (r: String)
        ensures
            r@ == self.label(),
    {
        match self {
            TransactionType::INCOME => "INCOME".to_owned(),
            TransactionType::OUTCOME => "OUTCOME".to_owned(),
        }
    }
}

/// A transaction as it is journalled. Once written it never changes.
#[derive(Debug)]
pub struct Transaction {
    pub id: String,
    pub amount: i64,
    pub transaction_type: TransactionType,
    pub origin_account_id: String,
    pub description: Option<String>,
    pub created_at: String,
}

/// What a transaction holds, as mathematical values.
pub struct TransactionView {
    pub id: Seq<char>,
    pub amount: int,
    pub kind: TransactionType,
    pub origin_account_id: Seq<char>,
    pub description: Option<Seq<char>>,
    pub created_at: Seq<char>,
}

/// The characters of an optional text.
pub open spec fn text_of(text: Option<String>) -> Option<Seq<char>> {
    match text {
        Some(s) => Some(s@),
        None => None,
    }
}

impl View for Transaction {
    type V = TransactionView;

    open spec fn view(&self) -> TransactionView {
        TransactionView {
            id: self.id@,
            amount: self.amount as int,
            kind: self.transaction_type,
            origin_account_id: self.origin_account_id@,
            description: text_of(self.description),
            created_at: self.created_at@,
        }
    }
}

impl Transaction {
    /// A transaction under a given identifier and creation time.
    pub fn stamped(
        id: String,
        created_at: String,
        amount: i64,
        transaction_type: TransactionType,
        origin_account_id: String,
        description: Option<String>,
    ) -> (t: Self)
        ensures
            t@ == (TransactionView {
                id: id@,
                amount: amount as int,
                kind: transaction_type,
                origin_account_id: origin_account_id@,
                description: text_of(description),
                created_at: created_at@,
            }),
    {
        Transaction { id, amount, description, origin_account_id, transaction_type, created_at }
    }

    /// A transaction under a new random identifier, created now.
    pub fn new(
        amount: i64,
        transaction_type: TransactionType,
        origin_account_id: String,
        description: Option<String>,
    ) -> (t: Self)
        ensures
            is_fresh_id(t@.id),
            t@ == (TransactionView {
                id: t@.id,
                amount: amount as int,
                kind: transaction_type,
                origin_account_id: origin_account_id@,
                description: text_of(description),
                created_at: t@.created_at,
            }),
    {
        let id: String = fresh_id();
        let created_at: String = now_rfc3339();
        Transaction::stamped(id, created_at, amount, transaction_type, origin_account_id, description)
    }
}

} // verus!
