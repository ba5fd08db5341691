//! Sale authorization and settlement engine for a limited-supply ticket box.
//!
//! A ticket box is a configured sale campaign: a price, a sale window, an
//! optional supply cap with a per-wallet limit, and an optional fungible-token
//! currency. This crate holds the verified core: configuration validation,
//! per-purchase authorization, payment-path settlement decisions, and the
//! issuance-coordination state machine. Ledger plumbing (account loading,
//! cross-program calls) lives outside the library and hands it plain values.

pub mod errors;
pub mod keys;
pub mod state;
pub mod token;
pub mod initialize;
pub mod update;
pub mod mint;
