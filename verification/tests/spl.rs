use polyleverage_sim::spl::{
    mint_account_data, token_account_balance, token_account_data, MINT_LEN, TOKEN_ACCOUNT_LEN,
};
use solana_sdk::program_option::COption;
use solana_sdk::program_pack::Pack;
use solana_sdk::pubkey::Pubkey;
use spl_token::state::{Account as TokenAccount, AccountState, Mint};

#[test]
fn mint_data_unpacks_to_the_mint() {
    let data = mint_account_data([3u8; 32], 6);
    assert_eq!(data.len(), MINT_LEN);
    let m = Mint::unpack(&data).unwrap();
    assert_eq!(m.mint_authority, COption::Some(Pubkey::new_from_array([3u8; 32])));
    assert_eq!(m.supply, 0);
    assert_eq!(m.decimals, 6);
    assert!(m.is_initialized);
    assert_eq!(m.freeze_authority, COption::None);
    assert_eq!(&data[0..4], &[1, 0, 0, 0]);
    assert_eq!(data[44], 6);
    assert_eq!(data[45], 1);
}

#[test]
fn token_account_data_unpacks_to_the_account() {
    let data = token_account_data([5u8; 32], [6u8; 32], 1_234);
    assert_eq!(data.len(), TOKEN_ACCOUNT_LEN);
    let a = TokenAccount::unpack(&data).unwrap();
    assert_eq!(a.mint, Pubkey::new_from_array([5u8; 32]));
    assert_eq!(a.owner, Pubkey::new_from_array([6u8; 32]));
    assert_eq!(a.amount, 1_234);
    assert_eq!(a.state, AccountState::Initialized);
    assert_eq!(a.delegate, COption::None);
    assert_eq!(a.is_native, COption::None);
    assert_eq!(a.close_authority, COption::None);
}

#[test]
fn token_balance_reads_back_the_amount() {
    let data = token_account_data([5u8; 32], [6u8; 32], 600_000_000);
    assert_eq!(token_account_balance(&data), Some(600_000_000));
}

#[test]
fn token_balance_rejects_bad_data() {
    let data = token_account_data([5u8; 32], [6u8; 32], 7);
    assert_eq!(token_account_balance(&data[..164]), None);
    let mut uninit = data.clone();
    uninit[108] = 0;
    assert_eq!(token_account_balance(&uninit), None);
    let mut bad_tag = data.clone();
    bad_tag[72] = 2;
    assert_eq!(token_account_balance(&bad_tag), None);
    let mut frozen = data.clone();
    frozen[108] = 2;
    assert_eq!(token_account_balance(&frozen), Some(7));
}
