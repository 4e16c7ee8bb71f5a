//! Transaction processing engine of a financial ledger.
//!
//! Events carrying deposits, purchases and refunds are validated against a
//! ledger store, moved through the status state machine, and the balance of
//! the affected account is recomputed from its approved history.

pub mod balance;
pub mod cache;
pub mod config;
pub mod deposit_service;
pub mod error;
pub mod ledger;
pub mod memory;
pub mod model;
pub mod processor_balance;
pub mod processor_transaction;
pub mod purchase_service;
pub mod refund_service;
pub mod repository;
pub mod status;
