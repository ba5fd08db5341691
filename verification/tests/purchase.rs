//! Authorization, native settlement and the whole purchase pipeline.

use ticket_box::errors::ErrorCode;
use ticket_box::initialize::{handler as create, CreateParams};
use ticket_box::keys::Pubkey;
use ticket_box::mint::{
    authorize, finalize, handler as purchase, issuance_step, run_issuance, PaymentPlan,
    PurchaseState,
};
use ticket_box::state::TicketBox;
use ticket_box::token::AccountRecord;

fn key(tag: u8) -> Pubkey {
    Pubkey { bytes: [tag; 32] }
}

fn plain_account(tag: u8) -> AccountRecord {
    AccountRecord {
        key: key(tag),
        owner_program: key(0),
        lamports: 0,
        data: Vec::new(),
    }
}

fn native_box(price: u64, num_of_tickets: Option<i64>, end_at: Option<i64>) -> TicketBox {
    let params = CreateParams {
        uuid: String::from("box-1"),
        name: String::from("Party"),
        uri: String::from("https://example.invalid/box"),
        start_at: 100,
        end_at,
        num_of_tickets,
        ticket_per_wallet: num_of_tickets.map(|_| 0),
        price,
        transferable: true,
    };
    create(params, &key(1), &plain_account(2), None, 100).unwrap()
}

fn buy(b: &mut TicketBox, payer: &Pubkey, lamports: u64, now: i64, outcomes: &Vec<bool>)
    -> Result<(PaymentPlan, ticket_box::mint::TicketMetadata), ErrorCode>
{
    let box_address = key(40);
    let collection_mint = key(41);
    purchase(
        b,
        payer,
        lamports,
        None,
        None,
        &box_address,
        &collection_mint,
        now,
        outcomes,
    )
}

#[test]
fn authorize_passes_in_window_with_supply() {
    let b = native_box(0, Some(3), Some(200));
    assert!(authorize(&b, 150).is_ok());
}

#[test]
fn authorize_rejects_after_end_even_with_supply() {
    let b = native_box(0, Some(3), Some(200));
    assert_eq!(authorize(&b, 200), Err(ErrorCode::EventEnded));
    assert_eq!(authorize(&b, 500), Err(ErrorCode::EventEnded));
}

#[test]
fn authorize_rejects_before_start() {
    let b = native_box(0, Some(3), Some(200));
    assert_eq!(authorize(&b, 99), Err(ErrorCode::EventNotStarted));
}

#[test]
fn underfunded_native_purchase_changes_nothing() {
    let mut b = native_box(100, None, None);
    let payer = key(7);
    let r = buy(&mut b, &payer, 99, 150, &vec![true, true, true]);
    assert_eq!(r.err(), Some(ErrorCode::NotEnoughSOL));
    assert_eq!(b.num_of_sold, 0);
}

#[test]
fn exact_supply_is_sold_and_not_one_more() {
    let mut b = native_box(0, Some(2), None);
    let payer = key(7);
    for expected in 1..=2i64 {
        let (plan, meta) = buy(&mut b, &payer, 0, 150, &vec![true, true, true]).unwrap();
        assert!(matches!(plan, PaymentPlan::Free));
        assert_eq!(meta.sequence, expected);
        assert_eq!(b.num_of_sold, expected);
    }
    let r = buy(&mut b, &payer, 0, 150, &vec![true, true, true]);
    assert_eq!(r.err(), Some(ErrorCode::SoldOut));
    assert_eq!(b.num_of_sold, 2);
}

#[test]
fn failing_issuance_step_rolls_the_purchase_back() {
    let payer = key(7);
    // step two fails
    let mut b = native_box(0, Some(2), None);
    let r = buy(&mut b, &payer, 0, 150, &vec![true, false, true]);
    assert_eq!(r.err(), Some(ErrorCode::ExternalIssuanceFailure));
    assert_eq!(b.num_of_sold, 0);
    // step three fails
    let r = buy(&mut b, &payer, 0, 150, &vec![true, true, false]);
    assert_eq!(r.err(), Some(ErrorCode::ExternalIssuanceFailure));
    assert_eq!(b.num_of_sold, 0);
}

#[test]
fn issuance_state_machine_advances_and_collapses() {
    assert_eq!(
        issuance_step(PurchaseState::Paid, true),
        PurchaseState::Described
    );
    assert_eq!(
        issuance_step(PurchaseState::Described, true),
        PurchaseState::Authenticated
    );
    assert_eq!(
        issuance_step(PurchaseState::Authenticated, true),
        PurchaseState::CollectionVerified
    );
    assert_eq!(
        issuance_step(PurchaseState::Described, false),
        PurchaseState::Rejected(ErrorCode::ExternalIssuanceFailure)
    );
    assert_eq!(
        run_issuance(&vec![true, true, true]),
        PurchaseState::CollectionVerified
    );
    assert_eq!(
        run_issuance(&vec![false, true, true]),
        PurchaseState::Rejected(ErrorCode::ExternalIssuanceFailure)
    );
}

#[test]
fn per_wallet_limit_is_refused_like_sold_out() {
    let b = native_box(0, Some(3), None);
    // ticket_per_wallet is 0 here: holding none is already the cap
    assert_eq!(
        ticket_box::mint::check_per_wallet_limit(&b, 0),
        Err(ErrorCode::SoldOut)
    );
    let unlimited = native_box(0, None, None);
    assert!(ticket_box::mint::check_per_wallet_limit(&unlimited, 1000).is_ok());
}

#[test]
fn finalize_commits_only_a_verified_purchase() {
    let mut b = native_box(0, Some(2), None);
    let seq = finalize(&mut b, PurchaseState::CollectionVerified).unwrap();
    assert_eq!(seq, 1);
    assert_eq!(b.num_of_sold, 1);
    let r = finalize(&mut b, PurchaseState::Rejected(ErrorCode::SoldOut));
    assert_eq!(r.err(), Some(ErrorCode::SoldOut));
    assert_eq!(b.num_of_sold, 1);
}

#[test]
fn single_ticket_scenario() {
    // price 100, native currency, one ticket. Buyer A holds 150, buys the
    // ticket; buyer B is then refused as sold out.
    let mut b = native_box(100, Some(1), None);
    let buyer_a = key(7);
    let escrow = b.escrow;
    let mut balance_a: u64 = 150;
    let mut escrow_balance: u64 = 0;

    let (plan, meta) = buy(&mut b, &buyer_a, balance_a, 150, &vec![true, true, true]).unwrap();
    match plan {
        PaymentPlan::Native { from, to, amount } => {
            assert_eq!(from, buyer_a);
            assert_eq!(to, escrow);
            assert_eq!(amount, 100);
            balance_a -= amount;
            escrow_balance += amount;
        }
        _ => panic!("expected a native transfer"),
    }
    assert_eq!(balance_a, 50);
    assert_eq!(escrow_balance, 100);
    assert_eq!(b.num_of_sold, 1);
    assert_eq!(meta.sequence, 1);
    assert_eq!(meta.name, "Party1");

    let buyer_b = key(8);
    let r = buy(&mut b, &buyer_b, 1000, 150, &vec![true, true, true]);
    assert_eq!(r.err(), Some(ErrorCode::SoldOut));
    assert_eq!(b.num_of_sold, 1);
}

#[test]
fn ticket_names_carry_the_sequence_number() {
    assert_eq!(ticket_box::mint::ticket_name(&String::from("Party"), 1), "Party1");
    assert_eq!(ticket_box::mint::ticket_name(&String::from("Party"), 10), "Party10");
    assert_eq!(ticket_box::mint::ticket_name(&String::from(""), 907), "907");
    assert_eq!(ticket_box::mint::u64_to_dec(0), "0");
    assert_eq!(ticket_box::mint::u64_to_dec(18446744073709551615), "18446744073709551615");
}

#[test]
fn metadata_describes_the_next_ticket() {
    let b = native_box(0, None, None);
    let m = ticket_box::mint::describe_ticket(&b, &key(40), &key(41));
    assert_eq!(m.sequence, 1);
    assert_eq!(m.name, "Party1");
    assert_eq!(m.symbol, "TICKET");
    assert_eq!(m.uri, "https://example.invalid/box");
    assert_eq!(m.seller_fee_basis_points, 200);
    assert_eq!(m.update_authority, key(40));
    assert_eq!(m.collection_mint, key(41));
    assert!(!m.collection_verified);
    assert_eq!(m.edition_max_prints, 0);
}

#[test]
fn collection_metadata_mirrors_the_box() {
    let b = native_box(0, None, None);
    let m = ticket_box::initialize::describe_collection(&b, &key(40));
    assert_eq!(m.name, "Party");
    assert_eq!(m.symbol, "BOX");
    assert_eq!(m.uri, "https://example.invalid/box");
    assert_eq!(m.seller_fee_basis_points, 200);
    assert_eq!(m.update_authority, key(40));
    assert_eq!(m.collection_size, 0);
    assert_eq!(m.edition_max_prints, 0);
}
