//! Custody records held in ledger accounts: the record codec, the
//! authorization state machine that creates, transfers and drains them, and
//! the small pieces of validation the surrounding service needs.

pub mod pubkey;
pub mod error;
pub mod state;
pub mod instruction;
pub mod processor;
pub mod entity;
pub mod driver;
pub mod service;
