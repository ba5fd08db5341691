//! Persistent state of one ticket sale campaign.

use vstd::prelude::*;
use crate::keys::Pubkey;

verus! {

/// One configured ticket sale: the box record, owned by its creator.
///
/// Optional fields use `None` for "unbounded" (`end_at`, `num_of_tickets`,
/// `ticket_per_wallet`) or "native value" (`currency`); a sentinel zero is
/// never used.
pub struct TicketBox {
    /// Opaque unique identifier, immutable after creation.
    pub uuid: String,
    /// The owning principal; only it may update the box.
    pub creator: Pubkey,
    /// Display name; each issuance's name is derived from it.
    pub name: String,
    /// Display URI shared by all issuances of this box.
    pub uri: String,
    /// Sale inactive before this instant.
    pub start_at: i64,
    /// Sale inactive from this instant on, when present.
    pub end_at: Option<i64>,
    /// Cap on tickets ever sold, when present.
    pub num_of_tickets: Option<i64>,
    /// Tickets sold so far; advances by exactly one per successful purchase.
    pub num_of_sold: i64,
    /// Cap on tickets one buyer may hold; present whenever `num_of_tickets` is.
    pub ticket_per_wallet: Option<i64>,
    /// Mint of the fungible token used for payment; `None` means native value.
    /// Fixed at creation, never changed by an update.
    pub currency: Option<Pubkey>,
    /// Price per ticket; zero means free.
    pub price: u64,
    /// Consumed by downstream issuance metadata, not enforced here.
    pub transferable: bool,
    /// Destination of payment proceeds, fixed at creation.
    pub escrow: Pubkey,
}

impl TicketBox {
    /// The invariant every stored box satisfies: creation establishes it and
    /// every update or purchase preserves it.
    pub open spec fn wf(self) -> bool {
        &&& 0 <= self.num_of_sold
        &&& self.end_at is Some ==> self.end_at->0 > self.start_at
        &&& self.num_of_tickets is Some ==> {
            &&& self.ticket_per_wallet is Some
            &&& self.num_of_tickets->0 > self.ticket_per_wallet->0
        }
    }
}

/// The record tying a box to the mint of its collection grouping; issuances
/// are verified as members of that collection.
pub struct CollectionPda {
    /// The authority allowed to act for the collection.
    pub authority: Pubkey,
    /// The collection's mint address.
    pub mint: Pubkey,
}

} // verus!
