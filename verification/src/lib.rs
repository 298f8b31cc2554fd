//! Verified core of the CronCat rule checks, message types and DAO proposal helper.
//!
//! The chain-facing pieces (storage, address validation, cross-contract
//! queries, JSON encoding and decoding of messages) live with the host; what
//! to validate, what to query (with all its parameters) and how to answer are
//! functions of this crate with contracts.

pub mod cosmwasm;
pub mod coin;
pub mod response;
pub mod rules;
pub mod error;
pub mod daodao;
pub mod agents;
pub mod tasks;
