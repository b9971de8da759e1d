//! A ledger for bank accounts: users register, open accounts, and move
//! money into and out of them. Balances are whole numbers of minor units
//! (cents), never negative, and every movement is journalled.
//!
//! The library decides; it does not store. Each operation is a state
//! machine that tells its caller what to ask of the store next and takes
//! the store's answer as its next input:
//!
//! - [`engine`] executes one transaction: validation, the locked read of
//!   the account, the new balance, the atomic write;
//! - [`accounts`] opens an account;
//! - [`registration`] registers a user.
//!
//! [`ledger`] holds the mathematical model of what the store keeps and the
//! laws proved of the machines against it, one request after the other;
//! [`interleaving`] proves that no update is lost where requests run at the
//! same time. [`validator`] holds the checks
//! that run before anything is stored, [`models`] the records, [`error`]
//! the errors and their classes. [`identity`] and [`credential`] are the
//! doors to the `uuid`, `chrono` and `argon2` crates.

pub mod accounts;
pub mod credential;
pub mod engine;
pub mod error;
pub mod identity;
pub mod interleaving;
pub mod layers;
pub mod ledger;
pub mod models;
pub mod registration;
pub mod validator;
