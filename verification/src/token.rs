//! Token-account inspection: plain snapshots of ledger accounts, the byte
//! layout of the token program's records, and the checks the engine runs on
//! them before it trusts a holding account.

use vstd::prelude::*;
use crate::errors::ErrorCode;
use crate::keys::{Pubkey, cmp_pubkeys};
use vstd::bytes::spec_u64_from_le_bytes;
use anchor_lang::solana_program::program_pack::Pack;

verus! {

/// An optional borrow, as the value it borrows.
pub open spec fn copy_opt<T>(o: Option<&T>) -> Option<T> {
    match o {
        Some(t) => Some(*t),
        None => None,
    }
}

/// A plain snapshot of one ledger account, as the host hands it to the
/// engine: its address, the program that owns it, its native balance and its
/// raw data bytes.
pub struct AccountRecord {
    pub key: Pubkey,
    pub owner_program: Pubkey,
    pub lamports: u64,
    pub data: Vec<u8>,
}

/// What the engine reads of a token holding account once its bytes parse.
#[derive(Clone, Copy)]
pub struct SplTokenAccount {
    /// The mint (token type) this account holds.
    pub mint: Pubkey,
    /// The wallet that owns the holding account.
    pub owner: Pubkey,
    /// The balance, in token base units.
    pub amount: u64,
    /// Whether the account has been initialized.
    pub initialized: bool,
}

/// What the engine reads of a mint (token type) record once its bytes parse.
#[derive(Clone, Copy)]
pub struct SplMint {
    /// Total supply of the token.
    pub supply: u64,
    /// Decimal places of the token.
    pub decimals: u8,
    /// Whether the mint has been initialized.
    pub initialized: bool,
}

/// The address of the token program, which must own every token account the
/// engine accepts.
pub open spec fn spl_token_id() -> Seq<u8> {
    seq![
        6u8, 221u8, 246u8, 225u8, 215u8, 101u8, 161u8, 147u8,
        217u8, 203u8, 225u8, 70u8, 206u8, 235u8, 121u8, 172u8,
        28u8, 180u8, 133u8, 237u8, 95u8, 91u8, 55u8, 145u8,
        58u8, 140u8, 245u8, 133u8, 126u8, 255u8, 0u8, 169u8,
    ]
}

/// A serialized optional value's four-byte tag at offset `i`: 0 for absent,
/// 1 for present; anything else makes the record invalid.
pub open spec fn coption_tag_ok(d: Seq<u8>, i: int) -> bool {
    &&& d[i] == 0 || d[i] == 1
    &&& d[i + 1] == 0
    &&& d[i + 2] == 0
    &&& d[i + 3] == 0
}

/// When the 165-byte token holding account layout parses: exact length,
/// valid optional-field tags, and a state byte that is one of the three
/// account states.
pub open spec fn token_account_bytes_valid(d: Seq<u8>) -> bool {
    &&& d.len() == 165
    &&& coption_tag_ok(d, 72)
    &&& d[108] == 0 || d[108] == 1 || d[108] == 2
    &&& coption_tag_ok(d, 109)
    &&& coption_tag_ok(d, 129)
}

/// The mint field of a token holding account: bytes 0..32.
pub open spec fn token_account_mint(d: Seq<u8>) -> Seq<u8> {
    d.subrange(0, 32)
}

/// The owner field of a token holding account: bytes 32..64.
pub open spec fn token_account_owner(d: Seq<u8>) -> Seq<u8> {
    d.subrange(32, 64)
}

/// The balance field of a token holding account: little-endian bytes 64..72.
pub open spec fn token_account_amount(d: Seq<u8>) -> u64 {
    spec_u64_from_le_bytes(d.subrange(64, 72))
}

/// A holding account is initialized when its state byte is not zero.
pub open spec fn token_account_initialized(d: Seq<u8>) -> bool {
    d[108] != 0
}

/// When the 82-byte mint record layout parses: exact length, valid
/// optional-field tags, and a boolean initialization byte.
pub open spec fn mint_bytes_valid(d: Seq<u8>) -> bool {
    &&& d.len() == 82
    &&& coption_tag_ok(d, 0)
    &&& d[45] == 0 || d[45] == 1
    &&& coption_tag_ok(d, 46)
}

/// The supply field of a mint record: little-endian bytes 36..44.
pub open spec fn mint_supply(d: Seq<u8>) -> u64 {
    spec_u64_from_le_bytes(d.subrange(36, 44))
}

/// The decimals field of a mint record: byte 44.
pub open spec fn mint_decimals(d: Seq<u8>) -> u8 {
    d[44]
}

/// A mint is initialized when its initialization byte is one.
pub open spec fn mint_initialized(d: Seq<u8>) -> bool {
    d[45] == 1
}

/// The canonical holding-account address the token program derives for a
/// wallet and a mint; a function of the two addresses alone.
pub uninterp spec fn ata_address(wallet: Seq<u8>, mint: Seq<u8>) -> Seq<u8>;

/// Relies on the token program's `state::Account::unpack_unchecked`: it
/// parses exactly the 165-byte layout above, rejecting a wrong length, a bad
/// optional-field tag or a state byte above two.
#[verifier::external_body]
fn unpack_token_account(data: &Vec<u8>) -> (r: Option<SplTokenAccount>)
    ensures
        r is Some <==> token_account_bytes_valid(data@),
        r is Some ==> {
            &&& r->0.mint@ == token_account_mint(data@)
            &&& r->0.owner@ == token_account_owner(data@)
            &&& r->0.amount == token_account_amount(data@)
            &&& r->0.initialized == token_account_initialized(data@)
        },
{
    match anchor_spl::token::spl_token::state::Account::unpack_unchecked(data.as_slice()) {
        Ok(a) => Some(SplTokenAccount {
            mint: Pubkey { bytes: a.mint.to_bytes() },
            owner: Pubkey { bytes: a.owner.to_bytes() },
            amount: a.amount,
            initialized: anchor_lang::solana_program::program_pack::IsInitialized::is_initialized(&a),
        }),
        Err(_) => None,
    }
}

/// Relies on the token program's `state::Mint::unpack_unchecked`: it parses
/// exactly the 82-byte layout above, rejecting a wrong length, a bad
/// optional-field tag or an initialization byte above one.
#[verifier::external_body]
fn unpack_mint(data: &Vec<u8>) -> (r: Option<SplMint>)
    ensures
        r is Some <==> mint_bytes_valid(data@),
        r is Some ==> {
            &&& r->0.supply == mint_supply(data@)
            &&& r->0.decimals == mint_decimals(data@)
            &&& r->0.initialized == mint_initialized(data@)
        },
{
    match anchor_spl::token::spl_token::state::Mint::unpack_unchecked(data.as_slice()) {
        Ok(m) => Some(SplMint {
            supply: m.supply,
            decimals: m.decimals,
            initialized: m.is_initialized,
        }),
        Err(_) => None,
    }
}

/// Relies on the token program's `id()`: the constant address it declares,
/// written out byte for byte in `spl_token_id`.
#[verifier::external_body]
pub(crate) fn spl_token_program_id() -> (r: Pubkey)
    ensures
        r@ == spl_token_id(),
{
    Pubkey { bytes: anchor_spl::token::spl_token::id().to_bytes() }
}

/// Relies on the associated token program's `get_associated_token_address`:
/// the derived holding-account address is a function of the wallet and mint
/// addresses alone (the program addresses in the derivation are constants).
#[verifier::external_body]
fn derive_associated_token_address(wallet: &Pubkey, mint: &Pubkey) -> (r: Pubkey)
    ensures
        r@ == ata_address(wallet@, mint@),
{
    Pubkey {
        bytes: anchor_spl::associated_token::get_associated_token_address(
            &anchor_lang::solana_program::pubkey::Pubkey::new_from_array(wallet.bytes),
            &anchor_lang::solana_program::pubkey::Pubkey::new_from_array(mint.bytes),
        ).to_bytes(),
    }
}

/// Succeeds exactly when the account is owned by the given program;
/// otherwise reports a wrong owner.
pub fn assert_owned_by(account: &AccountRecord, owner: &Pubkey) -> (r: Result<(), ErrorCode>)
    ensures
        r is Ok <==> account.owner_program@ == owner@,
        r is Err ==> r == Err::<(), ErrorCode>(ErrorCode::InvalidTokenAccountOwner),
{
    if cmp_pubkeys(&account.owner_program, owner) {
        Ok(())
    } else {
        Err(ErrorCode::InvalidTokenAccountOwner)
    }
}

/// Parses the account's bytes as a token holding account and demands that it
/// is initialized; rejects unparsable or uninitialized data.
pub fn assert_initialized(account: &AccountRecord) -> (r: Result<SplTokenAccount, ErrorCode>)
    ensures
        r is Ok <==> token_account_bytes_valid(account.data@)
            && token_account_initialized(account.data@),
        r is Ok ==> {
            &&& r->Ok_0.mint@ == token_account_mint(account.data@)
            &&& r->Ok_0.owner@ == token_account_owner(account.data@)
            &&& r->Ok_0.amount == token_account_amount(account.data@)
            &&& r->Ok_0.initialized
        },
        r is Err ==> r == Err::<SplTokenAccount, ErrorCode>(ErrorCode::Uninitialized),
{
    match unpack_token_account(&account.data) {
        Some(acc) => {
            if acc.initialized {
                Ok(acc)
            } else {
                Err(ErrorCode::Uninitialized)
            }
        },
        None => Err(ErrorCode::Uninitialized),
    }
}

/// Parses the account's bytes as a mint record and demands that it is
/// initialized; rejects unparsable or uninitialized data.
pub fn assert_initialized_mint(account: &AccountRecord) -> (r: Result<SplMint, ErrorCode>)
    ensures
        r is Ok <==> mint_bytes_valid(account.data@) && mint_initialized(account.data@),
        r is Ok ==> {
            &&& r->Ok_0.supply == mint_supply(account.data@)
            &&& r->Ok_0.decimals == mint_decimals(account.data@)
            &&& r->Ok_0.initialized
        },
        r is Err ==> r == Err::<SplMint, ErrorCode>(ErrorCode::Uninitialized),
{
    match unpack_mint(&account.data) {
        Some(m) => {
            if m.initialized {
                Ok(m)
            } else {
                Err(ErrorCode::Uninitialized)
            }
        },
        None => Err(ErrorCode::Uninitialized),
    }
}

/// Everything `assert_is_ata` demands of a holding account: owned by the
/// token program, initialized, held by the wallet, of the right mint, and
/// standing at the canonical derived address.
pub open spec fn is_valid_ata(ata: AccountRecord, wallet: Seq<u8>, mint: Seq<u8>) -> bool {
    &&& ata.owner_program@ == spl_token_id()
    &&& token_account_bytes_valid(ata.data@)
    &&& token_account_initialized(ata.data@)
    &&& token_account_owner(ata.data@) == wallet
    &&& token_account_mint(ata.data@) == mint
    &&& ata.key@ == ata_address(wallet, mint)
}

/// The error `assert_is_ata` reports, decided by the first failing check.
pub open spec fn ata_error(ata: AccountRecord, wallet: Seq<u8>, mint: Seq<u8>) -> ErrorCode {
    if ata.owner_program@ != spl_token_id() {
        ErrorCode::InvalidTokenAccountOwner
    } else if !(token_account_bytes_valid(ata.data@) && token_account_initialized(ata.data@)) {
        ErrorCode::Uninitialized
    } else {
        ErrorCode::PublicKeyMismatch
    }
}

/// Validates a payer's token holding account: it must be the canonical,
/// initialized, correctly-owned and correctly-typed account for the wallet
/// and mint. Any ownership, type or derivation mismatch is rejected before a
/// transfer can be planned.
pub fn assert_is_ata(ata: &AccountRecord, wallet: &Pubkey, mint: &Pubkey)
    -> (r: Result<SplTokenAccount, ErrorCode>)
    ensures
        r is Ok <==> is_valid_ata(*ata, wallet@, mint@),
        r is Ok ==> {
            &&& r->Ok_0.owner@ == wallet@
            &&& r->Ok_0.mint@ == mint@
            &&& r->Ok_0.amount == token_account_amount(ata.data@)
            &&& r->Ok_0.initialized
        },
        r is Err ==> r->Err_0 == ata_error(*ata, wallet@, mint@),
{
    let token_program = spl_token_program_id();
    assert_owned_by(ata, &token_program)?;
    let acc = assert_initialized(ata)?;
    if !cmp_pubkeys(&acc.owner, wallet) {
        return Err(ErrorCode::PublicKeyMismatch);
    }
    if !cmp_pubkeys(&acc.mint, mint) {
        return Err(ErrorCode::PublicKeyMismatch);
    }
    let derived = derive_associated_token_address(wallet, mint);
    if !cmp_pubkeys(&derived, &ata.key) {
        return Err(ErrorCode::PublicKeyMismatch);
    }
    Ok(acc)
}

} // verus!
