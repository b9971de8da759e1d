//! Layers that a request passes before it reaches the ledger.

pub mod authorization;
