//! One ticket purchase: authorization against the sale window and supply,
//! settlement of the payment path, the issuance description, and the
//! three-step external issuance protocol that must complete as a whole
//! before the sale is committed.

use vstd::prelude::*;
use vstd::string::StringExecFns;
use crate::errors::ErrorCode;
use crate::keys::Pubkey;
use crate::state::TicketBox;
use crate::token::{
    AccountRecord, assert_is_ata, ata_error, copy_opt, is_valid_ata, token_account_amount,
};

verus! {

// ------------------------------------------------------------------
// Sale authorization
// ------------------------------------------------------------------

/// The sale window is open at `now`: at or after the opening and, when the
/// box is bounded, strictly before the close.
pub open spec fn window_open(b: TicketBox, now: i64) -> bool {
    &&& now >= b.start_at
    &&& b.end_at is Some ==> now < b.end_at->0
}

/// The box still has a ticket to sell.
pub open spec fn supply_left(b: TicketBox) -> bool {
    b.num_of_tickets is Some ==> b.num_of_sold < b.num_of_tickets->0
}

/// When a purchase attempt passes authorization.
pub open spec fn authorize_accepted(b: TicketBox, now: i64) -> bool {
    window_open(b, now) && supply_left(b)
}

/// The error a refused authorization reports: the first failing gate.
pub open spec fn authorize_error(b: TicketBox, now: i64) -> ErrorCode {
    if b.end_at is Some && now >= b.end_at->0 {
        ErrorCode::EventEnded
    } else if now < b.start_at {
        ErrorCode::EventNotStarted
    } else {
        ErrorCode::SoldOut
    }
}

/// Gates a purchase attempt on the box's current state and the supplied
/// time: the window must be open and supply must remain. Runs before any
/// payment or issuance step and mutates nothing.
pub fn authorize(ticket_box: &TicketBox, now: i64) -> (r: Result<(), ErrorCode>)
    ensures
        r is Ok <==> authorize_accepted(*ticket_box, now),
        r is Err ==> r->Err_0 == authorize_error(*ticket_box, now),
{
    if let Some(end_at) = ticket_box.end_at {
        if !(end_at > now) {
            return Err(ErrorCode::EventEnded);
        }
    }
    if now < ticket_box.start_at {
        return Err(ErrorCode::EventNotStarted);
    }
    if let Some(num_of_tickets) = ticket_box.num_of_tickets {
        if !(ticket_box.num_of_sold < num_of_tickets) {
            return Err(ErrorCode::SoldOut);
        }
    }
    Ok(())
}

/// The per-buyer gate. Counting tickets per buyer is delegated to the
/// host's per-wallet counter; this is the rule the engine holds its report
/// to: a buyer who has reached the box's per-wallet limit is refused like a
/// sold-out box.
pub fn check_per_wallet_limit(ticket_box: &TicketBox, tickets_held: i64) -> (r: Result<
    (),
    ErrorCode,
>)
    ensures
        r is Ok <==> (ticket_box.ticket_per_wallet is Some ==> tickets_held
            < ticket_box.ticket_per_wallet->0),
        r is Err ==> r == Err::<(), ErrorCode>(ErrorCode::SoldOut),
{
    if let Some(limit) = ticket_box.ticket_per_wallet {
        if !(tickets_held < limit) {
            return Err(ErrorCode::SoldOut);
        }
    }
    Ok(())
}

// ------------------------------------------------------------------
// Payment settlement
// ------------------------------------------------------------------

/// The transfer the host must execute to settle one purchase, resolved from
/// the box's payment path. Emitting the plan mutates nothing; the host
/// executes it within the same all-or-nothing transaction as the purchase.
pub enum PaymentPlan {
    /// A free box: nothing to pay.
    Free,
    /// Move exactly `amount` of native value from `from` to `to`.
    Native { from: Pubkey, to: Pubkey, amount: u64 },
    /// Move exactly `amount` token units from the holding account `source`
    /// to `destination`, signed by `authority` (the payer or a delegated
    /// transfer authority).
    Token { source: Pubkey, destination: Pubkey, authority: Pubkey, amount: u64 },
}

/// When settlement accepts a purchase: free boxes always; a token-currency
/// box demands the payer's canonical holding account with enough balance; a
/// native box demands enough native balance.
pub open spec fn settle_accepted(
    b: TicketBox,
    payer: Seq<u8>,
    payer_lamports: u64,
    token_account: Option<AccountRecord>,
) -> bool {
    if b.price == 0 {
        true
    } else if b.currency is Some {
        &&& token_account is Some
        &&& is_valid_ata(token_account->0, payer, b.currency->0@)
        &&& token_account_amount(token_account->0.data@) >= b.price
    } else {
        payer_lamports >= b.price
    }
}

/// The error a refused settlement reports: on the token path a holding
/// account fault before a balance fault, on the native path a balance fault.
pub open spec fn settle_error(
    b: TicketBox,
    payer: Seq<u8>,
    token_account: Option<AccountRecord>,
) -> ErrorCode {
    if b.currency is Some {
        if !is_valid_ata(token_account->0, payer, b.currency->0@) {
            ata_error(token_account->0, payer, b.currency->0@)
        } else {
            ErrorCode::NotEnoughTokens
        }
    } else {
        ErrorCode::NotEnoughSOL
    }
}

/// The plan a successful settlement emits: nothing for a free box; for a
/// priced box, a transfer of exactly the price to the box's escrow
/// destination, from the payer's native balance or from the validated
/// holding account under the supplied transfer authority.
pub open spec fn planned(
    plan: PaymentPlan,
    b: TicketBox,
    payer: Seq<u8>,
    token_account: Option<AccountRecord>,
    transfer_authority: Option<Pubkey>,
) -> bool {
    if b.price == 0 {
        plan is Free
    } else if b.currency is Some {
        &&& token_account is Some
        &&& transfer_authority is Some
        &&& (plan matches PaymentPlan::Token { source, destination, authority, amount }
            && source@ == token_account->0.key@
            && destination@ == b.escrow@
            && authority@ == transfer_authority->0@
            && amount == b.price)
    } else {
        plan matches PaymentPlan::Native { from, to, amount }
            && from@ == payer
            && to@ == b.escrow@
            && amount == b.price
    }
}

/// Resolves the payment path and plans the transfer. A zero-price box skips
/// settlement. On the token path the payer's holding account is validated
/// (ownership, type, derived address) before any transfer is planned, and
/// its balance must cover the price in full; on the native path the payer's
/// balance must. Nothing is moved here: a rejection therefore changes no
/// balance.
pub fn settle(
    ticket_box: &TicketBox,
    payer: &Pubkey,
    payer_lamports: u64,
    token_account: Option<&AccountRecord>,
    transfer_authority: Option<&Pubkey>,
) -> (r: Result<PaymentPlan, ErrorCode>)
    requires
        ticket_box.price > 0 && ticket_box.currency is Some ==> token_account is Some
            && transfer_authority is Some,
    ensures
        r is Ok <==> settle_accepted(*ticket_box, payer@, payer_lamports, copy_opt(token_account)),
        r is Err ==> r->Err_0 == settle_error(*ticket_box, payer@, copy_opt(token_account)),
        r is Ok ==> planned(
            r->Ok_0,
            *ticket_box,
            payer@,
            copy_opt(token_account),
            copy_opt(transfer_authority),
        ),
{
    if ticket_box.price == 0 {
        return Ok(PaymentPlan::Free);
    }
    match &ticket_box.currency {
        Some(mint) => {
            let holding = token_account.unwrap();
            let account = assert_is_ata(holding, payer, mint)?;
            if account.amount < ticket_box.price {
                return Err(ErrorCode::NotEnoughTokens);
            }
            Ok(PaymentPlan::Token {
                source: holding.key,
                destination: ticket_box.escrow,
                authority: *transfer_authority.unwrap(),
                amount: ticket_box.price,
            })
        },
        None => {
            if payer_lamports < ticket_box.price {
                return Err(ErrorCode::NotEnoughSOL);
            }
            Ok(PaymentPlan::Native {
                from: *payer,
                to: ticket_box.escrow,
                amount: ticket_box.price,
            })
        },
    }
}

// ------------------------------------------------------------------
// Issuance description
// ------------------------------------------------------------------

/// The decimal digit characters.
pub open spec fn digit_char(d: int) -> char {
    if d == 0 { '0' }
    else if d == 1 { '1' }
    else if d == 2 { '2' }
    else if d == 3 { '3' }
    else if d == 4 { '4' }
    else if d == 5 { '5' }
    else if d == 6 { '6' }
    else if d == 7 { '7' }
    else if d == 8 { '8' }
    else { '9' }
}

/// The decimal rendering of a non-negative integer, most significant digit
/// first, without leading zeros (except for zero itself).
pub open spec fn spec_dec(n: int) -> Seq<char>
    decreases n,
{
    if n < 10 {
        seq![digit_char(n)]
    } else {
        spec_dec(n / 10).push(digit_char(n % 10))
    }
}

/// One decimal digit as a string slice.
fn digit_str(d: u64) -> (s: &'static str)
    requires
        d < 10,
    ensures
        s@ == seq![digit_char(d as int)],
{
    proof {
        reveal_strlit("0");
        reveal_strlit("1");
        reveal_strlit("2");
        reveal_strlit("3");
        reveal_strlit("4");
        reveal_strlit("5");
        reveal_strlit("6");
        reveal_strlit("7");
        reveal_strlit("8");
        reveal_strlit("9");
    }
    let s: &'static str = match d {
        0 => "0",
        1 => "1",
        2 => "2",
        3 => "3",
        4 => "4",
        5 => "5",
        6 => "6",
        7 => "7",
        8 => "8",
        _ => "9",
    };
    proof {
        assert(s@ =~= seq![digit_char(d as int)]);
    }
    s
}

/// Renders a number in decimal.
pub fn u64_to_dec(n: u64) -> (s: String)
    ensures
        s@ == spec_dec(n as int),
    decreases n,
{
    let last = digit_str(n % 10);
    if n < 10 {
        String::from_str(last)
    } else {
        let mut prefix = u64_to_dec(n / 10);
        proof {
            assert(n as int / 10 == (n / 10) as int);
            assert(n as int % 10 == (n % 10) as int);
            assert(spec_dec(n as int / 10).push(digit_char(n as int % 10)) =~= spec_dec(
                n as int / 10,
            ) + seq![digit_char(n as int % 10)]);
        }
        prefix.append(last);
        prefix
    }
}

/// The display name of one issuance: the box's name with the sequence number
/// appended in decimal.
pub fn ticket_name(name: &String, sequence: i64) -> (r: String)
    requires
        sequence > 0,
    ensures
        r@ == name@ + spec_dec(sequence as int),
{
    let mut r = name.clone();
    let digits = u64_to_dec(sequence as u64);
    r.append(digits.as_str());
    r
}

/// Everything the external issuance service needs for one sold ticket: the
/// descriptive record (steps one and two fix the name, the shared URI and a
/// single-copy supply) and the box's collection, of which the issuance
/// starts as an unverified member.
pub struct TicketMetadata {
    /// Box name followed by the sequence number.
    pub name: String,
    /// The fixed ticket symbol.
    pub symbol: String,
    /// The box's shared display URI.
    pub uri: String,
    /// Royalty share in basis points, fixed by the engine.
    pub seller_fee_basis_points: u16,
    /// The box account, on whose behalf the record is created.
    pub update_authority: Pubkey,
    /// The collection the issuance belongs to.
    pub collection_mint: Pubkey,
    /// Membership starts unverified; the third protocol step verifies it.
    pub collection_verified: bool,
    /// The authenticity record allows no further prints: the issuance is
    /// unique.
    pub edition_max_prints: u64,
    /// This issuance's sequence number: one past the tickets sold so far.
    pub sequence: i64,
}

/// The fixed symbol of every ticket issuance.
pub fn ticket_symbol() -> (s: String)
    ensures
        s@ == "TICKET"@,
{
    String::from_str("TICKET")
}

/// Builds the issuance description for the next ticket of the box.
pub fn describe_ticket(
    ticket_box: &TicketBox,
    box_address: &Pubkey,
    collection_mint: &Pubkey,
) -> (m: TicketMetadata)
    requires
        0 <= ticket_box.num_of_sold < i64::MAX,
    ensures
        m.sequence == ticket_box.num_of_sold + 1,
        m.name@ == ticket_box.name@ + spec_dec(ticket_box.num_of_sold + 1),
        m.symbol@ == "TICKET"@,
        m.uri@ == ticket_box.uri@,
        m.seller_fee_basis_points == 200,
        m.update_authority == *box_address,
        m.collection_mint == *collection_mint,
        !m.collection_verified,
        m.edition_max_prints == 0,
{
    let sequence: i64 = ticket_box.num_of_sold + 1;
    TicketMetadata {
        name: ticket_name(&ticket_box.name, sequence),
        symbol: ticket_symbol(),
        uri: ticket_box.uri.clone(),
        seller_fee_basis_points: 200,
        update_authority: *box_address,
        collection_mint: *collection_mint,
        collection_verified: false,
        edition_max_prints: 0,
        sequence,
    }
}

// ------------------------------------------------------------------
// Issuance coordination
// ------------------------------------------------------------------

/// Where one purchase request stands. The three external protocol steps
/// advance `Paid` through `Described` and `Authenticated` to
/// `CollectionVerified`; any failure collapses the request to `Rejected`,
/// and only a `CollectionVerified` request may commit the sale.
#[derive(Clone, Copy, Debug, PartialEq, Eq, Structural)]
pub enum PurchaseState {
    /// Received, not yet authorized.
    Requested,
    /// Passed the window and supply gates.
    Authorized,
    /// Payment planned and covered in full.
    Paid,
    /// Step one succeeded: the descriptive record exists.
    Described,
    /// Step two succeeded: the single-copy authenticity record exists.
    Authenticated,
    /// Step three succeeded: collection membership is verified.
    CollectionVerified,
    /// Refused; nothing of the request may persist.
    Rejected(ErrorCode),
}

/// One external protocol step: failure collapses the request, success
/// advances it one stage (and moves a request that is not mid-protocol
/// nowhere).
pub open spec fn spec_issuance_step(s: PurchaseState, succeeded: bool) -> PurchaseState {
    if !succeeded {
        PurchaseState::Rejected(ErrorCode::ExternalIssuanceFailure)
    } else {
        match s {
            PurchaseState::Paid => PurchaseState::Described,
            PurchaseState::Described => PurchaseState::Authenticated,
            PurchaseState::Authenticated => PurchaseState::CollectionVerified,
            _ => s,
        }
    }
}

/// Advances the purchase by the reported outcome of one external step.
pub fn issuance_step(state: PurchaseState, succeeded: bool) -> (next: PurchaseState)
    ensures
        next == spec_issuance_step(state, succeeded),
{
    if !succeeded {
        PurchaseState::Rejected(ErrorCode::ExternalIssuanceFailure)
    } else {
        match state {
            PurchaseState::Paid => PurchaseState::Described,
            PurchaseState::Described => PurchaseState::Authenticated,
            PurchaseState::Authenticated => PurchaseState::CollectionVerified,
            other => other,
        }
    }
}

/// The purchase state after a sequence of external step outcomes.
pub open spec fn spec_run_issuance(s: PurchaseState, outcomes: Seq<bool>) -> PurchaseState
    decreases outcomes.len(),
{
    if outcomes.len() == 0 {
        s
    } else {
        spec_run_issuance(spec_issuance_step(s, outcomes[0]), outcomes.subrange(1, outcomes.len() as int))
    }
}

/// Running one more step is stepping the result of the run so far.
pub proof fn lemma_run_issuance_snoc(s: PurchaseState, outcomes: Seq<bool>, b: bool)
    ensures
        spec_run_issuance(s, outcomes.push(b)) == spec_issuance_step(
            spec_run_issuance(s, outcomes),
            b,
        ),
    decreases outcomes.len(),
{
    if outcomes.len() == 0 {
        reveal_with_fuel(spec_run_issuance, 2);
        assert(outcomes.push(b)[0] == b);
        assert(outcomes.push(b).subrange(1, 1) =~= Seq::<bool>::empty());
    } else {
        assert(outcomes.push(b)[0] == outcomes[0]);
        assert(outcomes.push(b).subrange(1, outcomes.len() as int + 1) =~= outcomes.subrange(
            1,
            outcomes.len() as int,
        ).push(b));
        lemma_run_issuance_snoc(
            spec_issuance_step(s, outcomes[0]),
            outcomes.subrange(1, outcomes.len() as int),
            b,
        );
    }
}

/// A three-outcome run is the three steps taken in order.
pub proof fn lemma_run_three(o: Seq<bool>)
    requires
        o.len() == 3,
    ensures
        spec_run_issuance(PurchaseState::Paid, o) == spec_issuance_step(
            spec_issuance_step(spec_issuance_step(PurchaseState::Paid, o[0]), o[1]),
            o[2],
        ),
{
    let e = Seq::<bool>::empty();
    let s0 = e.push(o[0]);
    let s01 = s0.push(o[1]);
    assert(o =~= s01.push(o[2]));
    assert(spec_run_issuance(PurchaseState::Paid, e) == PurchaseState::Paid);
    lemma_run_issuance_snoc(PurchaseState::Paid, e, o[0]);
    lemma_run_issuance_snoc(PurchaseState::Paid, s0, o[1]);
    lemma_run_issuance_snoc(PurchaseState::Paid, s01, o[2]);
}

/// Drives a paid purchase through the three external steps, given the
/// outcome the external service reported for each. The request reaches
/// `CollectionVerified` exactly when all three steps succeeded; any failure
/// leaves it `Rejected`, which `finalize` turns into a full rollback.
pub fn run_issuance(outcomes: &Vec<bool>) -> (r: PurchaseState)
    requires
        outcomes@.len() == 3,
    ensures
        r == spec_run_issuance(PurchaseState::Paid, outcomes@),
        r is CollectionVerified <==> outcomes@ =~= seq![true, true, true],
        !(r is CollectionVerified) ==> r == PurchaseState::Rejected(
            ErrorCode::ExternalIssuanceFailure,
        ),
{
    let mut state = PurchaseState::Paid;
    let mut i: usize = 0;
    while i < outcomes.len()
        invariant
            i <= outcomes@.len(),
            outcomes@.len() == 3,
            state == spec_run_issuance(PurchaseState::Paid, outcomes@.subrange(0, i as int)),
        decreases outcomes@.len() - i,
    {
        proof {
            assert(outcomes@.subrange(0, i as int).push(outcomes@[i as int]) =~= outcomes@
                .subrange(0, i + 1));
            lemma_run_issuance_snoc(
                PurchaseState::Paid,
                outcomes@.subrange(0, i as int),
                outcomes@[i as int],
            );
        }
        state = issuance_step(state, outcomes[i]);
        i += 1;
    }
    proof {
        assert(outcomes@.subrange(0, 3) =~= outcomes@);
        lemma_run_three(outcomes@);
        if outcomes@[0] && outcomes@[1] && outcomes@[2] {
            assert(outcomes@ =~= seq![true, true, true]);
        }
    }
    state
}

/// A failure in any of the three external steps — in particular the second
/// (authenticity record) or third (collection verification) — leaves the
/// purchase `Rejected`, never `CollectionVerified`: the sale cannot commit,
/// so the payment and the sold count roll back with the host transaction and
/// no partial issuance persists.
pub proof fn lemma_issuance_failure_rolls_back(outcomes: Seq<bool>)
    requires
        outcomes.len() == 3,
        !outcomes[0] || !outcomes[1] || !outcomes[2],
    ensures
        spec_run_issuance(PurchaseState::Paid, outcomes) == PurchaseState::Rejected(
            ErrorCode::ExternalIssuanceFailure,
        ),
{
    lemma_run_three(outcomes);
}

/// Commits a fully verified purchase: advances the sold count by exactly
/// one and touches nothing else. Any other state commits nothing and
/// reports the rejection.
pub fn finalize(ticket_box: &mut TicketBox, state: PurchaseState) -> (r: Result<i64, ErrorCode>)
    requires
        old(ticket_box).wf(),
        old(ticket_box).num_of_sold < i64::MAX,
        state is CollectionVerified || state is Rejected,
    ensures
        r is Ok <==> state is CollectionVerified,
        r is Ok ==> {
            &&& r->Ok_0 == old(ticket_box).num_of_sold + 1
            &&& *final(ticket_box) == spec_commit(*old(ticket_box))
            &&& final(ticket_box).wf()
        },
        r is Err ==> {
            &&& *final(ticket_box) == *old(ticket_box)
            &&& state matches PurchaseState::Rejected(e) && r->Err_0 == e
        },
{
    match state {
        PurchaseState::CollectionVerified => {
            let sequence: i64 = ticket_box.num_of_sold + 1;
            ticket_box.num_of_sold = sequence;
            Ok(sequence)
        },
        PurchaseState::Rejected(e) => Err(e),
        _ => Err(ErrorCode::ExternalIssuanceFailure),
    }
}

// ------------------------------------------------------------------
// The whole purchase
// ------------------------------------------------------------------

/// When a purchase goes through: authorization accepts, settlement accepts,
/// and all three external issuance steps succeed.
pub open spec fn purchase_accepted(
    b: TicketBox,
    payer: Seq<u8>,
    payer_lamports: u64,
    token_account: Option<AccountRecord>,
    step_outcomes: Seq<bool>,
    now: i64,
) -> bool {
    &&& authorize_accepted(b, now)
    &&& settle_accepted(b, payer, payer_lamports, token_account)
    &&& step_outcomes =~= seq![true, true, true]
}

/// The error a rejected purchase reports: the first stage that refused it.
pub open spec fn purchase_error(
    b: TicketBox,
    payer: Seq<u8>,
    payer_lamports: u64,
    token_account: Option<AccountRecord>,
    now: i64,
) -> ErrorCode {
    if !authorize_accepted(b, now) {
        authorize_error(b, now)
    } else if !settle_accepted(b, payer, payer_lamports, token_account) {
        settle_error(b, payer, token_account)
    } else {
        ErrorCode::ExternalIssuanceFailure
    }
}

/// One purchase attempt, whole: authorization, settlement, the issuance
/// description, the three external steps (whose reported outcomes the host
/// supplies), and the commit. The stages run in that order and the first
/// rejection aborts the attempt with the box untouched — together with the
/// host's all-or-nothing transaction, a rejected purchase has no observable
/// effect. On success the sold count has advanced by exactly one and the
/// caller receives the payment plan to execute and the issuance description,
/// numbered one past the tickets sold before.
pub fn handler(
    ticket_box: &mut TicketBox,
    payer: &Pubkey,
    payer_lamports: u64,
    token_account: Option<&AccountRecord>,
    transfer_authority: Option<&Pubkey>,
    box_address: &Pubkey,
    collection_mint: &Pubkey,
    now: i64,
    step_outcomes: &Vec<bool>,
) -> (r: Result<(PaymentPlan, TicketMetadata), ErrorCode>)
    requires
        old(ticket_box).wf(),
        old(ticket_box).num_of_sold < i64::MAX,
        old(ticket_box).price > 0 && old(ticket_box).currency is Some ==> token_account is Some
            && transfer_authority is Some,
        step_outcomes@.len() == 3,
    ensures
        r is Ok <==> purchase_accepted(
            *old(ticket_box),
            payer@,
            payer_lamports,
            copy_opt(token_account),
            step_outcomes@,
            now,
        ),
        r is Err ==> {
            &&& *final(ticket_box) == *old(ticket_box)
            &&& r->Err_0 == purchase_error(
                *old(ticket_box),
                payer@,
                payer_lamports,
                copy_opt(token_account),
                now,
            )
        },
        r is Ok ==> {
            let b0 = *old(ticket_box);
            let plan = r->Ok_0.0;
            let m = r->Ok_0.1;
            &&& *final(ticket_box) == spec_commit(b0)
            &&& final(ticket_box).wf()
            &&& planned(plan, b0, payer@, copy_opt(token_account), copy_opt(transfer_authority))
            &&& m.sequence == b0.num_of_sold + 1
            &&& m.name@ == b0.name@ + spec_dec(b0.num_of_sold + 1)
            &&& m.symbol@ == "TICKET"@
            &&& m.uri@ == b0.uri@
            &&& m.seller_fee_basis_points == 200
            &&& m.update_authority == *box_address
            &&& m.collection_mint == *collection_mint
            &&& !m.collection_verified
            &&& m.edition_max_prints == 0
        },
{
    authorize(ticket_box, now)?;
    let plan = settle(ticket_box, payer, payer_lamports, token_account, transfer_authority)?;
    let metadata = describe_ticket(ticket_box, box_address, collection_mint);
    let state = run_issuance(step_outcomes);
    let _sequence = finalize(ticket_box, state)?;
    Ok((plan, metadata))
}

// ------------------------------------------------------------------
// Supply exhaustion
// ------------------------------------------------------------------

/// The box after one committed sale: the sold count one higher, everything
/// else untouched.
pub open spec fn spec_commit(b: TicketBox) -> TicketBox {
    TicketBox { num_of_sold: (b.num_of_sold + 1) as i64, ..b }
}

/// The box after `k` purchase attempts that are each fully funded and whose
/// external steps all succeed: every attempt that authorization accepts
/// commits, every other attempt leaves the box as it was.
pub open spec fn spec_attempts(b: TicketBox, now: i64, k: nat) -> TicketBox
    decreases k,
{
    if k == 0 {
        b
    } else {
        let prev = spec_attempts(b, now, (k - 1) as nat);
        if authorize_accepted(prev, now) && prev.num_of_sold < i64::MAX {
            spec_commit(prev)
        } else {
            prev
        }
    }
}

/// A fully funded attempt whose external steps all succeed turns on
/// authorization alone: it goes through exactly when the window is open and
/// supply remains. This is what lets `spec_attempts` stand for a chain of
/// such purchases.
pub proof fn lemma_funded_attempt(b: TicketBox, payer: Seq<u8>, payer_lamports: u64, now: i64)
    requires
        b.price == 0 || (b.currency is None && payer_lamports >= b.price),
    ensures
        purchase_accepted(b, payer, payer_lamports, None, seq![true, true, true], now)
            <==> authorize_accepted(b, now),
{
}

/// A box created with a supply cap of `n` sells exactly `n` tickets: while
/// the window stays open, the first `n` fully funded attempts each commit
/// one sale, and from the `n`-th sale on every further attempt is refused as
/// sold out — however many attempts are made.
pub proof fn lemma_exact_supply(b: TicketBox, now: i64, k: nat)
    requires
        b.wf(),
        b.num_of_sold == 0,
        b.num_of_tickets is Some,
        b.num_of_tickets->0 >= 0,
        window_open(b, now),
    ensures
        ({
            let n = b.num_of_tickets->0;
            let after = spec_attempts(b, now, k);
            &&& after.wf()
            &&& after.start_at == b.start_at
            &&& after.end_at == b.end_at
            &&& after.num_of_tickets == b.num_of_tickets
            &&& k <= n ==> after.num_of_sold == k
            &&& k >= n ==> after.num_of_sold == n
            &&& k >= n ==> !authorize_accepted(after, now) && authorize_error(after, now)
                == ErrorCode::SoldOut
        }),
    decreases k,
{
    if k > 0 {
        lemma_exact_supply(b, now, (k - 1) as nat);
    }
}

} // verus!
