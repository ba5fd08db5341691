//! Token-account inspection and the token payment path, run against the
//! real token-program layout and address derivation.

use ticket_box::errors::ErrorCode;
use ticket_box::initialize::{handler as create, CreateParams};
use ticket_box::keys::{assert_keys_equal, cmp_pubkeys, Pubkey};
use ticket_box::mint::{handler as purchase, settle, PaymentPlan};
use ticket_box::state::TicketBox;
use ticket_box::token::{
    assert_initialized, assert_initialized_mint, assert_is_ata, assert_owned_by, AccountRecord,
};

const SPL_TOKEN_ID: [u8; 32] = [
    6, 221, 246, 225, 215, 101, 161, 147, 217, 203, 225, 70, 206, 235, 121, 172, 28, 180, 133,
    237, 95, 91, 55, 145, 58, 140, 245, 133, 126, 255, 0, 169,
];

fn key(tag: u8) -> Pubkey {
    Pubkey { bytes: [tag; 32] }
}

/// The 165-byte token holding account layout: mint, owner, little-endian
/// amount, absent optional fields, state byte 1 (initialized).
fn token_account_data(mint: &Pubkey, owner: &Pubkey, amount: u64) -> Vec<u8> {
    let mut d = vec![0u8; 165];
    d[0..32].copy_from_slice(&mint.bytes);
    d[32..64].copy_from_slice(&owner.bytes);
    d[64..72].copy_from_slice(&amount.to_le_bytes());
    d[108] = 1;
    d
}

/// The 82-byte mint record layout: absent authorities, supply, decimals,
/// initialization byte 1.
fn mint_data(supply: u64, decimals: u8) -> Vec<u8> {
    let mut d = vec![0u8; 82];
    d[36..44].copy_from_slice(&supply.to_le_bytes());
    d[44] = decimals;
    d[45] = 1;
    d
}

fn spl_key() -> Pubkey {
    Pubkey { bytes: SPL_TOKEN_ID }
}

fn ata_record(wallet: &Pubkey, mint: &Pubkey, amount: u64) -> AccountRecord {
    let derived = anchor_spl::associated_token::get_associated_token_address(
        &anchor_lang::solana_program::pubkey::Pubkey::new_from_array(wallet.bytes),
        &anchor_lang::solana_program::pubkey::Pubkey::new_from_array(mint.bytes),
    );
    AccountRecord {
        key: Pubkey { bytes: derived.to_bytes() },
        owner_program: spl_key(),
        lamports: 0,
        data: token_account_data(mint, wallet, amount),
    }
}

fn token_box(price: u64, mint: &Pubkey) -> TicketBox {
    let params = CreateParams {
        uuid: String::from("box-2"),
        name: String::from("Party"),
        uri: String::from("https://example.invalid/box"),
        start_at: 100,
        end_at: None,
        num_of_tickets: None,
        ticket_per_wallet: None,
        price,
        transferable: false,
    };
    let escrow_wallet = AccountRecord {
        key: key(2),
        owner_program: spl_key(),
        lamports: 0,
        data: token_account_data(mint, &key(2), 0),
    };
    let mint_account = AccountRecord {
        key: *mint,
        owner_program: spl_key(),
        lamports: 0,
        data: mint_data(1_000_000, 6),
    };
    create(params, &key(1), &escrow_wallet, Some(&mint_account), 100).unwrap()
}

#[test]
fn key_comparisons() {
    assert!(cmp_pubkeys(&key(3), &key(3)));
    assert!(!cmp_pubkeys(&key(3), &key(4)));
    assert!(assert_keys_equal(&key(3), &key(3)).is_ok());
    assert_eq!(
        assert_keys_equal(&key(3), &key(4)),
        Err(ErrorCode::PublicKeyMismatch)
    );
}

#[test]
fn parsing_extracts_the_account_fields() {
    let mint = key(9);
    let owner = key(7);
    let record = AccountRecord {
        key: key(5),
        owner_program: spl_key(),
        lamports: 0,
        data: token_account_data(&mint, &owner, 4242),
    };
    let acc = assert_initialized(&record).unwrap();
    assert_eq!(acc.mint, mint);
    assert_eq!(acc.owner, owner);
    assert_eq!(acc.amount, 4242);
    assert!(acc.initialized);
}

#[test]
fn parsing_rejects_bad_or_uninitialized_data() {
    let mut record = AccountRecord {
        key: key(5),
        owner_program: spl_key(),
        lamports: 0,
        data: vec![0u8; 10],
    };
    assert_eq!(assert_initialized(&record).err(), Some(ErrorCode::Uninitialized));
    // right length, state byte zero: parses but uninitialized
    record.data = token_account_data(&key(9), &key(7), 1);
    record.data[108] = 0;
    assert_eq!(assert_initialized(&record).err(), Some(ErrorCode::Uninitialized));
}

#[test]
fn mint_parsing_extracts_the_fields() {
    let record = AccountRecord {
        key: key(9),
        owner_program: spl_key(),
        lamports: 0,
        data: mint_data(5000, 9),
    };
    let m = assert_initialized_mint(&record).unwrap();
    assert_eq!(m.supply, 5000);
    assert_eq!(m.decimals, 9);
    assert!(m.initialized);
    let bad = AccountRecord {
        key: key(9),
        owner_program: spl_key(),
        lamports: 0,
        data: vec![0u8; 82],
    };
    assert_eq!(assert_initialized_mint(&bad).err(), Some(ErrorCode::Uninitialized));
}

#[test]
fn ownership_check() {
    let record = AccountRecord {
        key: key(5),
        owner_program: key(6),
        lamports: 0,
        data: Vec::new(),
    };
    assert!(assert_owned_by(&record, &key(6)).is_ok());
    assert_eq!(
        assert_owned_by(&record, &spl_key()),
        Err(ErrorCode::InvalidTokenAccountOwner)
    );
}

#[test]
fn the_canonical_holding_account_is_accepted() {
    let wallet = key(7);
    let mint = key(9);
    let record = ata_record(&wallet, &mint, 250);
    let acc = assert_is_ata(&record, &wallet, &mint).unwrap();
    assert_eq!(acc.amount, 250);
    assert_eq!(acc.owner, wallet);
    assert_eq!(acc.mint, mint);
}

#[test]
fn a_non_derived_address_is_refused() {
    let wallet = key(7);
    let mint = key(9);
    let mut record = ata_record(&wallet, &mint, 250);
    record.key = key(50);
    assert_eq!(
        assert_is_ata(&record, &wallet, &mint).err(),
        Some(ErrorCode::PublicKeyMismatch)
    );
}

#[test]
fn a_mismatched_mint_is_refused_before_any_transfer() {
    let wallet = key(7);
    let mint = key(9);
    let other_mint = key(10);
    // the holding account declares another mint than the box's currency
    let mut record = ata_record(&wallet, &mint, 250);
    record.data[0..32].copy_from_slice(&other_mint.bytes);
    let b = token_box(100, &mint);
    let authority = key(7);
    let r = settle(&b, &wallet, 0, Some(&record), Some(&authority));
    assert_eq!(r.err(), Some(ErrorCode::PublicKeyMismatch));
}

#[test]
fn wrong_owner_program_is_refused() {
    let wallet = key(7);
    let mint = key(9);
    let mut record = ata_record(&wallet, &mint, 250);
    record.owner_program = key(6);
    assert_eq!(
        assert_is_ata(&record, &wallet, &mint).err(),
        Some(ErrorCode::InvalidTokenAccountOwner)
    );
}

#[test]
fn token_settlement_plans_the_exact_transfer() {
    let wallet = key(7);
    let mint = key(9);
    let b = token_box(100, &mint);
    assert_eq!(b.currency, Some(mint));
    let record = ata_record(&wallet, &mint, 250);
    let authority = key(30);
    let plan = settle(&b, &wallet, 0, Some(&record), Some(&authority)).unwrap();
    match plan {
        PaymentPlan::Token { source, destination, authority: a, amount } => {
            assert_eq!(source, record.key);
            assert_eq!(destination, key(2));
            assert_eq!(a, authority);
            assert_eq!(amount, 100);
        }
        _ => panic!("expected a token transfer"),
    }
}

#[test]
fn short_token_balance_is_refused() {
    let wallet = key(7);
    let mint = key(9);
    let b = token_box(100, &mint);
    let record = ata_record(&wallet, &mint, 99);
    let authority = key(30);
    let r = settle(&b, &wallet, 0, Some(&record), Some(&authority));
    assert_eq!(r.err(), Some(ErrorCode::NotEnoughTokens));
}

#[test]
fn token_purchase_goes_through_whole() {
    let wallet = key(7);
    let mint = key(9);
    let mut b = token_box(100, &mint);
    let record = ata_record(&wallet, &mint, 250);
    let authority = key(30);
    let (plan, meta) = purchase(
        &mut b,
        &wallet,
        0,
        Some(&record),
        Some(&authority),
        &key(40),
        &key(41),
        150,
        &vec![true, true, true],
    )
    .unwrap();
    assert!(matches!(plan, PaymentPlan::Token { amount: 100, .. }));
    assert_eq!(meta.sequence, 1);
    assert_eq!(b.num_of_sold, 1);
}

#[test]
fn create_rejects_mismatched_currency_wallet() {
    // the escrow wallet holds a different mint than the supplied one
    let mint = key(9);
    let other = key(10);
    let params = CreateParams {
        uuid: String::from("box-2"),
        name: String::from("Party"),
        uri: String::from("u"),
        start_at: 100,
        end_at: None,
        num_of_tickets: None,
        ticket_per_wallet: None,
        price: 5,
        transferable: false,
    };
    let escrow_wallet = AccountRecord {
        key: key(2),
        owner_program: spl_key(),
        lamports: 0,
        data: token_account_data(&other, &key(2), 0),
    };
    let mint_account = AccountRecord {
        key: mint,
        owner_program: spl_key(),
        lamports: 0,
        data: mint_data(0, 0),
    };
    let r = create(params, &key(1), &escrow_wallet, Some(&mint_account), 100);
    assert_eq!(r.err(), Some(ErrorCode::MintMismatch));
}

#[test]
fn create_rejects_uninitialized_currency_mint() {
    let mint = key(9);
    let params = CreateParams {
        uuid: String::from("box-2"),
        name: String::from("Party"),
        uri: String::from("u"),
        start_at: 100,
        end_at: None,
        num_of_tickets: None,
        ticket_per_wallet: None,
        price: 5,
        transferable: false,
    };
    let escrow_wallet = AccountRecord {
        key: key(2),
        owner_program: spl_key(),
        lamports: 0,
        data: token_account_data(&mint, &key(2), 0),
    };
    let mut bad_mint_data = mint_data(0, 0);
    bad_mint_data[45] = 0;
    let mint_account = AccountRecord {
        key: mint,
        owner_program: spl_key(),
        lamports: 0,
        data: bad_mint_data,
    };
    let r = create(params, &key(1), &escrow_wallet, Some(&mint_account), 100);
    assert_eq!(r.err(), Some(ErrorCode::Uninitialized));
}

#[test]
fn create_rejects_mint_not_owned_by_token_program() {
    let mint = key(9);
    let params = CreateParams {
        uuid: String::from("box-2"),
        name: String::from("Party"),
        uri: String::from("u"),
        start_at: 100,
        end_at: None,
        num_of_tickets: None,
        ticket_per_wallet: None,
        price: 5,
        transferable: false,
    };
    let escrow_wallet = AccountRecord {
        key: key(2),
        owner_program: spl_key(),
        lamports: 0,
        data: token_account_data(&mint, &key(2), 0),
    };
    let mint_account = AccountRecord {
        key: mint,
        owner_program: key(6),
        lamports: 0,
        data: mint_data(0, 0),
    };
    let r = create(params, &key(1), &escrow_wallet, Some(&mint_account), 100);
    assert_eq!(r.err(), Some(ErrorCode::InvalidTokenAccountOwner));
}
