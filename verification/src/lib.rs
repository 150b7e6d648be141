//! Gatekeeping for a smart-contract ledger: structural validation of decoded
//! action payloads, and the decisions of the batch submission and status
//! protocol. Everything here works on plain values; decoding bytes and talking
//! to the ledger are left to the caller.

pub mod action;
pub mod error;
pub mod payload;
pub mod status;
pub mod transactions;
