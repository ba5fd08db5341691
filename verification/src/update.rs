//! Update of a ticket box: only the creator may update, only the supplied
//! fields are overwritten, and the window and supply invariants are
//! re-validated on the merged result. A rejected update changes nothing.

use vstd::prelude::*;
use crate::errors::ErrorCode;
use crate::keys::{Pubkey, cmp_pubkeys};
use crate::state::TicketBox;
use crate::initialize::{start_ok, end_ok, supply_ok};

verus! {

/// A partial configuration: a present field overwrites the box's, an absent
/// one leaves it untouched. The currency can never be changed, so it does not
/// appear. A supplied `ticket_per_wallet` takes effect only together with a
/// supplied `num_of_tickets`.
pub struct UpdateParams {
    pub name: Option<String>,
    pub uri: Option<String>,
    pub start_at: Option<i64>,
    pub end_at: Option<i64>,
    pub num_of_tickets: Option<i64>,
    pub ticket_per_wallet: Option<i64>,
    pub price: Option<u64>,
    pub transferable: Option<bool>,
}

/// The sale window's opening after the merge.
pub open spec fn merged_start(b: TicketBox, p: UpdateParams) -> i64 {
    if p.start_at is Some {
        p.start_at->0
    } else {
        b.start_at
    }
}

/// The sale window's close after the merge.
pub open spec fn merged_end(b: TicketBox, p: UpdateParams) -> Option<i64> {
    if p.end_at is Some {
        p.end_at
    } else {
        b.end_at
    }
}

/// When an update request is accepted: the caller is the creator, a supplied
/// opening does not lie in the past, the merged window stays ordered, and a
/// supplied supply cap comes with a per-wallet limit it strictly exceeds.
pub open spec fn update_accepted(b: TicketBox, p: UpdateParams, caller: Seq<u8>, now: i64) -> bool {
    &&& caller == b.creator@
    &&& p.start_at is Some ==> start_ok(p.start_at->0, now)
    &&& end_ok(merged_start(b, p), merged_end(b, p))
    &&& supply_ok(p.num_of_tickets, p.ticket_per_wallet)
}

/// The error a rejected update reports: the first failing check, in the
/// order the checks run.
pub open spec fn update_error(b: TicketBox, p: UpdateParams, caller: Seq<u8>, now: i64) -> ErrorCode {
    if caller != b.creator@ {
        ErrorCode::PublicKeyMismatch
    } else if p.start_at is Some && !start_ok(p.start_at->0, now) {
        ErrorCode::InvalidTicketBoxStartAt
    } else if !end_ok(merged_start(b, p), merged_end(b, p)) {
        ErrorCode::InvalidTicketBoxEndAt
    } else {
        ErrorCode::InvalidTicketPerWallet
    }
}

/// Applies a partial update to the box. Only the creator may call; the
/// merged state is validated before anything is written, so a rejected
/// request leaves the box exactly as it was.
pub fn handler(
    ticket_box: &mut TicketBox,
    caller: &Pubkey,
    params: UpdateParams,
    now: i64,
) -> (r: Result<(), ErrorCode>)
    requires
        old(ticket_box).wf(),
    ensures
        r is Ok <==> update_accepted(*old(ticket_box), params, caller@, now),
        r is Err ==> {
            &&& *final(ticket_box) == *old(ticket_box)
            &&& r->Err_0 == update_error(*old(ticket_box), params, caller@, now)
        },
        r is Ok ==> {
            let b0 = *old(ticket_box);
            let b = *final(ticket_box);
            &&& b.uuid@ == b0.uuid@
            &&& b.creator == b0.creator
            &&& b.name@ == (if params.name is Some { params.name->0@ } else { b0.name@ })
            &&& b.uri@ == (if params.uri is Some { params.uri->0@ } else { b0.uri@ })
            &&& b.start_at == merged_start(b0, params)
            &&& b.end_at == merged_end(b0, params)
            &&& b.num_of_tickets == (if params.num_of_tickets is Some {
                params.num_of_tickets
            } else {
                b0.num_of_tickets
            })
            &&& b.ticket_per_wallet == (if params.num_of_tickets is Some {
                params.ticket_per_wallet
            } else {
                b0.ticket_per_wallet
            })
            &&& b.num_of_sold == b0.num_of_sold
            &&& b.currency == b0.currency
            &&& b.price == (if params.price is Some { params.price->0 } else { b0.price })
            &&& b.transferable == (if params.transferable is Some {
                params.transferable->0
            } else {
                b0.transferable
            })
            &&& b.escrow == b0.escrow
            &&& b.wf()
        },
{
    if !cmp_pubkeys(caller, &ticket_box.creator) {
        return Err(ErrorCode::PublicKeyMismatch);
    }
    if let Some(start_at) = params.start_at {
        if !(start_at >= now) {
            return Err(ErrorCode::InvalidTicketBoxStartAt);
        }
    }
    let new_start: i64 = match params.start_at {
        Some(s) => s,
        None => ticket_box.start_at,
    };
    let new_end: Option<i64> = match params.end_at {
        Some(e) => Some(e),
        None => ticket_box.end_at,
    };
    if let Some(end_at) = new_end {
        if !(end_at > new_start) {
            return Err(ErrorCode::InvalidTicketBoxEndAt);
        }
    }
    if let Some(num_of_tickets) = params.num_of_tickets {
        match params.ticket_per_wallet {
            None => {
                return Err(ErrorCode::InvalidTicketPerWallet);
            },
            Some(ticket_per_wallet) => {
                if !(num_of_tickets > ticket_per_wallet) {
                    return Err(ErrorCode::InvalidTicketPerWallet);
                }
            },
        }
    }
    if let Some(name) = params.name {
        ticket_box.name = name;
    }
    if let Some(uri) = params.uri {
        ticket_box.uri = uri;
    }
    ticket_box.start_at = new_start;
    ticket_box.end_at = new_end;
    if let Some(num_of_tickets) = params.num_of_tickets {
        ticket_box.num_of_tickets = Some(num_of_tickets);
        ticket_box.ticket_per_wallet = params.ticket_per_wallet;
    }
    if let Some(price) = params.price {
        ticket_box.price = price;
    }
    if let Some(transferable) = params.transferable {
        ticket_box.transferable = transferable;
    }
    Ok(())
}

} // verus!
