//! Error kinds surfaced by the ticket box engine.

use vstd::prelude::*;

verus! {

/// Every way a creation, update or purchase request can be rejected.
/// Rejections are immediate and side-effect-free: a function that returns one
/// of these has changed nothing.
#[derive(Clone, Copy, Debug, PartialEq, Eq, Structural)]
pub enum ErrorCode {
    /// A token account's owning program is not the token program.
    InvalidTokenAccountOwner,
    /// A token account's declared mint is not the expected one.
    InvalidTokenAccountMint,
    /// A requested `start_at` lies in the past.
    InvalidTicketBoxStartAt,
    /// A requested `end_at` does not lie after `start_at`.
    InvalidTicketBoxEndAt,
    /// `num_of_tickets` was supplied without `ticket_per_wallet`, or does not
    /// strictly exceed it.
    InvalidTicketPerWallet,
    /// The ticket price is unacceptable.
    InvalidTicketPrice,
    /// The box has no tickets left to sell.
    SoldOut,
    /// The sale window has closed.
    EventEnded,
    /// The sale window has not opened yet.
    EventNotStarted,
    /// An account that had to be initialized is not.
    Uninitialized,
    /// Two addresses that had to match do not.
    PublicKeyMismatch,
    /// The payer's token balance does not cover the price.
    NotEnoughTokens,
    /// The payer's native balance does not cover the price.
    NotEnoughSOL,
    /// The token transfer primitive reported failure.
    TokenTransferFailed,
    /// A token account belongs to a different mint than required.
    MintMismatch,
    /// One of the external issuance sub-steps reported failure.
    ExternalIssuanceFailure,
}

} // verus!
