//! The records of the ledger: users, bank accounts and transactions.

pub mod bank_account;
pub mod transaction;
pub mod user;
