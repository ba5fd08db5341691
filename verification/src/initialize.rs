//! Creation of a ticket box: validates the supplied configuration and, when a
//! token currency is supplied, the mint and the escrow holding account, then
//! builds the box record.

use vstd::prelude::*;
use vstd::string::StringExecFns;
use crate::errors::ErrorCode;
use crate::keys::{Pubkey, cmp_pubkeys};
use crate::state::TicketBox;
use crate::token::{
    AccountRecord, assert_initialized, assert_initialized_mint, assert_owned_by, copy_opt,
    mint_bytes_valid, mint_initialized, spl_token_id, spl_token_program_id,
    token_account_bytes_valid, token_account_initialized, token_account_mint,
};

verus! {

/// The configuration a creation request supplies.
pub struct CreateParams {
    pub uuid: String,
    pub name: String,
    pub uri: String,
    pub start_at: i64,
    pub end_at: Option<i64>,
    pub num_of_tickets: Option<i64>,
    pub ticket_per_wallet: Option<i64>,
    pub price: u64,
    pub transferable: bool,
}

/// Invariant on the sale window's opening: it must not lie in the past.
pub open spec fn start_ok(start_at: i64, now: i64) -> bool {
    start_at >= now
}

/// Invariant on the sale window's close: when bounded, it must lie strictly
/// after the opening.
pub open spec fn end_ok(start_at: i64, end_at: Option<i64>) -> bool {
    end_at is Some ==> end_at->0 > start_at
}

/// Invariant on the supply cap: when bounded, a per-wallet limit must be
/// supplied and the cap must strictly exceed it.
pub open spec fn supply_ok(num_of_tickets: Option<i64>, ticket_per_wallet: Option<i64>) -> bool {
    num_of_tickets is Some ==> {
        &&& ticket_per_wallet is Some
        &&& num_of_tickets->0 > ticket_per_wallet->0
    }
}

/// What creation demands of a supplied token currency: an initialized mint
/// record, an initialized escrow holding account, both owned by the token
/// program, and the holding account declaring exactly that mint.
pub open spec fn currency_ok(wallet: AccountRecord, mint: AccountRecord) -> bool {
    &&& mint_bytes_valid(mint.data@) && mint_initialized(mint.data@)
    &&& token_account_bytes_valid(wallet.data@) && token_account_initialized(wallet.data@)
    &&& mint.owner_program@ == spl_token_id()
    &&& wallet.owner_program@ == spl_token_id()
    &&& token_account_mint(wallet.data@) == mint.key@
}

/// When a creation request is accepted.
pub open spec fn create_accepted(
    params: CreateParams,
    wallet: AccountRecord,
    currency_mint: Option<AccountRecord>,
    now: i64,
) -> bool {
    &&& start_ok(params.start_at, now)
    &&& end_ok(params.start_at, params.end_at)
    &&& supply_ok(params.num_of_tickets, params.ticket_per_wallet)
    &&& currency_mint is Some ==> currency_ok(wallet, currency_mint->0)
}

/// The error a rejected creation reports: the first failing check, in the
/// order the checks run.
pub open spec fn create_error(
    params: CreateParams,
    wallet: AccountRecord,
    currency_mint: Option<AccountRecord>,
    now: i64,
) -> ErrorCode {
    if !start_ok(params.start_at, now) {
        ErrorCode::InvalidTicketBoxStartAt
    } else if !end_ok(params.start_at, params.end_at) {
        ErrorCode::InvalidTicketBoxEndAt
    } else if !supply_ok(params.num_of_tickets, params.ticket_per_wallet) {
        ErrorCode::InvalidTicketPerWallet
    } else {
        let mint = currency_mint->0;
        if !(mint_bytes_valid(mint.data@) && mint_initialized(mint.data@)) {
            ErrorCode::Uninitialized
        } else if !(token_account_bytes_valid(wallet.data@)
            && token_account_initialized(wallet.data@)) {
            ErrorCode::Uninitialized
        } else if mint.owner_program@ != spl_token_id() {
            ErrorCode::InvalidTokenAccountOwner
        } else if wallet.owner_program@ != spl_token_id() {
            ErrorCode::InvalidTokenAccountOwner
        } else {
            ErrorCode::MintMismatch
        }
    }
}

/// Creates a box. The window and supply invariants are validated against the
/// supplied parameters and the current time; when a token-currency mint is
/// supplied, the mint and the escrow holding account (`wallet`) must pass the
/// currency checks and the currency is fixed from the mint's address,
/// otherwise the box settles in native value. On success the box starts with
/// nothing sold, owned by `creator`, paying out to `wallet`.
pub fn handler(
    params: CreateParams,
    creator: &Pubkey,
    wallet: &AccountRecord,
    currency_mint: Option<&AccountRecord>,
    now: i64,
) -> (r: Result<TicketBox, ErrorCode>)
    ensures
        r is Ok <==> create_accepted(params, *wallet, copy_opt(currency_mint), now),
        r is Ok ==> {
            let b = r->Ok_0;
            &&& b.uuid@ == params.uuid@
            &&& b.creator@ == creator@
            &&& b.name@ == params.name@
            &&& b.uri@ == params.uri@
            &&& b.start_at == params.start_at
            &&& b.end_at == params.end_at
            &&& b.num_of_tickets == params.num_of_tickets
            &&& b.num_of_sold == 0
            &&& b.ticket_per_wallet == params.ticket_per_wallet
            &&& (b.currency is Some <==> currency_mint is Some)
            &&& currency_mint is Some ==> b.currency->0@ == currency_mint->0.key@
            &&& b.price == params.price
            &&& b.transferable == params.transferable
            &&& b.escrow@ == wallet.key@
            &&& b.wf()
        },
        r is Err ==> r->Err_0 == create_error(params, *wallet, copy_opt(currency_mint), now),
{
    if !(params.start_at >= now) {
        return Err(ErrorCode::InvalidTicketBoxStartAt);
    }
    if let Some(end_at) = params.end_at {
        if !(end_at > params.start_at) {
            return Err(ErrorCode::InvalidTicketBoxEndAt);
        }
    }
    if let Some(num_of_tickets) = params.num_of_tickets {
        match params.ticket_per_wallet {
            None => {
                return Err(ErrorCode::InvalidTicketPerWallet);
            },
            Some(ticket_per_wallet) => {
                if !(num_of_tickets > ticket_per_wallet) {
                    return Err(ErrorCode::InvalidTicketPerWallet);
                }
            },
        }
    }
    let currency: Option<Pubkey> = match currency_mint {
        Some(mint_account) => {
            let _mint = assert_initialized_mint(mint_account)?;
            let token_account = assert_initialized(wallet)?;
            let token_program = spl_token_program_id();
            assert_owned_by(mint_account, &token_program)?;
            assert_owned_by(wallet, &token_program)?;
            if !cmp_pubkeys(&token_account.mint, &mint_account.key) {
                return Err(ErrorCode::MintMismatch);
            }
            Some(mint_account.key)
        },
        None => None,
    };
    Ok(TicketBox {
        uuid: params.uuid,
        creator: *creator,
        name: params.name,
        uri: params.uri,
        start_at: params.start_at,
        end_at: params.end_at,
        num_of_tickets: params.num_of_tickets,
        num_of_sold: 0,
        ticket_per_wallet: params.ticket_per_wallet,
        currency,
        price: params.price,
        transferable: params.transferable,
        escrow: wallet.key,
    })
}

/// The descriptive record of a box's collection grouping, created once at
/// the box's creation: every issuance of the box is verified as a member of
/// this collection.
pub struct CollectionMetadata {
    /// The box's display name.
    pub name: String,
    /// The fixed collection symbol.
    pub symbol: String,
    /// The box's shared display URI.
    pub uri: String,
    /// Royalty share in basis points, fixed by the engine.
    pub seller_fee_basis_points: u16,
    /// The box account, on whose behalf the record is created.
    pub update_authority: Pubkey,
    /// The collection starts empty.
    pub collection_size: u64,
    /// The collection record itself allows no prints.
    pub edition_max_prints: u64,
}

/// Builds the collection description for a freshly created box.
pub fn describe_collection(ticket_box: &TicketBox, box_address: &Pubkey) -> (m: CollectionMetadata)
    ensures
        m.name@ == ticket_box.name@,
        m.symbol@ == "BOX"@,
        m.uri@ == ticket_box.uri@,
        m.seller_fee_basis_points == 200,
        m.update_authority == *box_address,
        m.collection_size == 0,
        m.edition_max_prints == 0,
{
    CollectionMetadata {
        name: ticket_box.name.clone(),
        symbol: String::from_str("BOX"),
        uri: ticket_box.uri.clone(),
        seller_fee_basis_points: 200,
        update_authority: *box_address,
        collection_size: 0,
        edition_max_prints: 0,
    }
}

} // verus!
