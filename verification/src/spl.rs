//! SPL token state as bytes: the packed layouts of a mint and of a token
//! account, which the harness writes straight into accounts, and the
//! balance read back out of a token account.
//!
//! Mint (82 bytes): mint authority (`COption<Pubkey>`, 36), supply (u64
//! LE), decimals, is-initialized byte, freeze authority (36).
//! Token account (165 bytes): mint, owner, amount (u64 LE), delegate (36),
//! state byte, is-native (`COption<u64>`, 12), delegated amount (u64 LE),
//! close authority (36). An optional value is a 4-byte tag (`1 0 0 0` for
//! some, zero for none) followed by its body; an absent body stays zero.

use vstd::prelude::*;
use crate::wire::{le64, lemma_le_lengths, zeros};
use vstd::bytes::spec_u64_from_le_bytes;
use solana_sdk::program_option::COption;
use solana_sdk::program_pack::Pack;
use solana_sdk::pubkey::Pubkey;
use spl_token::state::{Account as TokenAccount, AccountState, Mint};

verus! {

/// Packed length of a mint.
pub const MINT_LEN: usize = 82;

/// Packed length of a token account.
pub const TOKEN_ACCOUNT_LEN: usize = 165;

/// State of a token account.
#[derive(Clone, Copy, Debug, PartialEq, Eq)]
pub enum TokenAccountState {
    Uninitialized,
    Initialized,
    Frozen,
}

/// The state byte of a token account state.
pub open spec fn state_byte(s: TokenAccountState) -> u8 {
    match s {
        TokenAccountState::Uninitialized => 0,
        TokenAccountState::Initialized => 1,
        TokenAccountState::Frozen => 2,
    }
}

/// A packed optional key: tag `1 0 0 0` and the key, or 36 zero bytes.
pub open spec fn coption_key_bytes(k: Option<[u8; 32]>) -> Seq<u8> {
    match k {
        Some(k) => seq![1u8, 0u8, 0u8, 0u8] + k@,
        None => zeros(36),
    }
}

/// A packed optional `u64`: tag `1 0 0 0` and the value, or 12 zero bytes.
pub open spec fn coption_u64_bytes(x: Option<u64>) -> Seq<u8> {
    match x {
        Some(x) => seq![1u8, 0u8, 0u8, 0u8] + le64(x),
        None => zeros(12),
    }
}

/// The packed bytes of a mint.
pub open spec fn mint_bytes(
    mint_authority: Option<[u8; 32]>,
    supply: u64,
    decimals: u8,
    is_initialized: bool,
    freeze_authority: Option<[u8; 32]>,
) -> Seq<u8> {
    coption_key_bytes(mint_authority) + le64(supply) + seq![decimals] + seq![
        if is_initialized {
            1u8
        } else {
            0u8
        },
    ] + coption_key_bytes(freeze_authority)
}

/// The packed bytes of a token account.
pub open spec fn token_account_bytes(
    mint: [u8; 32],
    owner: [u8; 32],
    amount: u64,
    delegate: Option<[u8; 32]>,
    state: TokenAccountState,
    is_native: Option<u64>,
    delegated_amount: u64,
    close_authority: Option<[u8; 32]>,
) -> Seq<u8> {
    mint@ + owner@ + le64(amount) + coption_key_bytes(delegate) + seq![state_byte(state)]
        + coption_u64_bytes(is_native) + le64(delegated_amount) + coption_key_bytes(close_authority)
}

/// A tag an optional value may carry: none or some.
pub open spec fn valid_option_tag(tag: Seq<u8>) -> bool {
    tag == seq![0u8, 0u8, 0u8, 0u8] || tag == seq![1u8, 0u8, 0u8, 0u8]
}

/// The balance `Account::unpack` reads from token-account bytes: the
/// amount at bytes 64..72 when the data is 165 bytes long, every optional
/// field carries a valid tag, the state byte names a state, and that
/// state is not uninitialized; otherwise none.
pub open spec fn token_account_amount(data: Seq<u8>) -> Option<u64> {
    if data.len() == 165 && valid_option_tag(data.subrange(72, 76)) && 1 <= data[108] <= 2
        && valid_option_tag(data.subrange(109, 113)) && valid_option_tag(data.subrange(129, 133)) {
        Some(spec_u64_from_le_bytes(data.subrange(64, 72)))
    } else {
        None
    }
}

/// Calls `Mint::pack_into_slice` on a zeroed 82-byte buffer. Claimed, as
/// the source shows: the bytes are the mint's packed layout.
#[verifier::external_body]
fn pack_mint(
    mint_authority: Option<[u8; 32]>,
    supply: u64,
    decimals: u8,
    is_initialized: bool,
    freeze_authority: Option<[u8; 32]>,
) -> (data: Vec<u8>)
    ensures
        data@ == mint_bytes(mint_authority, supply, decimals, is_initialized, freeze_authority),
{
    let key = |k: Option<[u8; 32]>| k.map(Pubkey::new_from_array).map_or(COption::None, COption::Some);
    let mut data = vec![0u8; Mint::LEN];
    Mint { mint_authority: key(mint_authority), supply, decimals, is_initialized, freeze_authority: key(freeze_authority) }
        .pack_into_slice(&mut data);
    data
}

/// Calls `Account::pack_into_slice` on a zeroed 165-byte buffer. Claimed,
/// as the source shows: the bytes are the token account's packed layout.
#[verifier::external_body]
fn pack_token_account(
    mint: [u8; 32],
    owner: [u8; 32],
    amount: u64,
    delegate: Option<[u8; 32]>,
    state: TokenAccountState,
    is_native: Option<u64>,
    delegated_amount: u64,
    close_authority: Option<[u8; 32]>,
) -> (data: Vec<u8>)
    ensures
        data@ == token_account_bytes(mint, owner, amount, delegate, state, is_native, delegated_amount, close_authority),
{
    let key = |k: Option<[u8; 32]>| k.map(Pubkey::new_from_array).map_or(COption::None, COption::Some);
    let state = match state {
        TokenAccountState::Uninitialized => AccountState::Uninitialized,
        TokenAccountState::Initialized => AccountState::Initialized,
        TokenAccountState::Frozen => AccountState::Frozen,
    };
    let is_native = is_native.map_or(COption::None, COption::Some);
    let mut data = vec![0u8; TokenAccount::LEN];
    TokenAccount { mint: Pubkey::new_from_array(mint), owner: Pubkey::new_from_array(owner), amount, delegate: key(delegate), state, is_native, delegated_amount, close_authority: key(close_authority) }
        .pack_into_slice(&mut data);
    data
}

/// Calls `Account::unpack` and takes the amount. Claimed, as the source
/// shows: it succeeds exactly when the bytes have the token-account length,
/// valid optional tags and an initialized or frozen state, and the amount
/// is the little-endian `u64` at 64..72.
#[verifier::external_body]
fn unpack_token_amount(data: &[u8]) -> (amount: Option<u64>)
    ensures
        amount == token_account_amount(data@),
{
    TokenAccount::unpack(data).ok().map(|a| a.amount)
}

/// The data of an initialized SPL mint whose mint authority is
/// `mint_authority`: no supply, no freeze authority.
pub fn mint_account_data(mint_authority: [u8; 32], decimals: u8) -> (data: Vec<u8>)
    ensures
        data@ == mint_bytes(Some(mint_authority), 0, decimals, true, None),
        data@.len() == MINT_LEN,
{
    proof {
        lemma_le_lengths();
    }
    pack_mint(Some(mint_authority), 0, decimals, true, None)
}

/// The data of an initialized SPL token account for `mint`, owned by
/// `authority`, holding `amount`: no delegate, not native, no close
/// authority.
pub fn token_account_data(mint: [u8; 32], authority: [u8; 32], amount: u64) -> (data: Vec<u8>)
    ensures
        data@ == token_account_bytes(
            mint,
            authority,
            amount,
            None,
            TokenAccountState::Initialized,
            None,
            0,
            None,
        ),
        data@.len() == TOKEN_ACCOUNT_LEN,
{
    proof {
        lemma_le_lengths();
    }
    pack_token_account(mint, authority, amount, None, TokenAccountState::Initialized, None, 0, None)
}

/// An SPL token account's balance, or none when the bytes are not an
/// initialized token account.
pub fn token_account_balance(data: &[u8]) -> (amount: Option<u64>)
    ensures
        amount == token_account_amount(data@),
{
    unpack_token_amount(data)
}

/// A token account's balance reads back what it was created with.
pub proof fn lemma_token_balance_reads_back(mint: [u8; 32], authority: [u8; 32], amount: u64)
    ensures
        token_account_amount(
            token_account_bytes(mint, authority, amount, None, TokenAccountState::Initialized, None, 0, None),
        ) == Some(amount),
{
    lemma_le_lengths();
    vstd::bytes::lemma_auto_spec_u64_to_from_le_bytes();
    let d = token_account_bytes(mint, authority, amount, None, TokenAccountState::Initialized, None, 0, None);
    assert(d.subrange(64, 72) =~= le64(amount));
    assert(d.subrange(72, 76) =~= seq![0u8, 0u8, 0u8, 0u8]);
    assert(d[108] == 1);
    assert(d.subrange(109, 113) =~= seq![0u8, 0u8, 0u8, 0u8]);
    assert(d.subrange(129, 133) =~= seq![0u8, 0u8, 0u8, 0u8]);
}

} // verus!
