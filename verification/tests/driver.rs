use polyleverage_sim::driver::{
    attestation_timestamp, liquidation_attestation, resolution_attestation, ProgramSeeds,
    ProgramTags,
};
use polyleverage_sim::instruction::{bare_instruction_data, instruction_data, AccountRef};
use polyleverage_sim::{AttestationFormat, Attestor, InstrumentParams, ProgramLayout, SOL};
use solana_sdk::pubkey::Pubkey;

fn seeds() -> ProgramSeeds {
    ProgramSeeds {
        config: b"config".to_vec(),
        vault: b"vault".to_vec(),
        margin: b"margin".to_vec(),
        fee_schedule: b"fee_schedule".to_vec(),
        instrument: b"instrument".to_vec(),
        book: b"book".to_vec(),
        market_nonce: b"market_nonce".to_vec(),
        timelock: b"timelock".to_vec(),
        user_volume: b"user_volume".to_vec(),
        treasury: b"treasury".to_vec(),
    }
}

fn tags() -> ProgramTags {
    ProgramTags {
        init_program_config: 0,
        create_margin_account: 1,
        deposit: 2,
        withdraw: 3,
        init_fee_schedule: 4,
        create_instrument: 5,
        expand_intent_book: 6,
        post_intent: 7,
        match_pair: 8,
        set_global_pause: 9,
        propose_set_attestation_signer: 10,
        execute_set_attestation_signer: 11,
        cancel_timelock_proposal: 12,
        novate: 13,
        match_substitute_with_settle: 14,
        liquidate: 15,
        resolve: 16,
        close_pmlc: 17,
    }
}

fn program() -> Pubkey {
    Pubkey::new_from_array([42u8; 32])
}

fn layout() -> ProgramLayout {
    ProgramLayout::new(program().to_bytes(), [1u8; 32], seeds(), tags())
}

fn pda(seeds: &[&[u8]]) -> [u8; 32] {
    Pubkey::find_program_address(seeds, &program()).0.to_bytes()
}

fn flags(a: &AccountRef) -> (bool, bool) {
    (a.is_signer, a.is_writable)
}

#[test]
fn sol_is_a_billion_lamports() {
    assert_eq!(SOL, 1_000_000_000);
}

#[test]
fn instrument_params_default_values() {
    let p = InstrumentParams::default();
    assert_eq!(p.source, 0);
    assert_eq!(p.market_id, [7u8; 32]);
    assert_eq!(p.leverage_bps, 20_000);
    assert_eq!(p.collateral_bucket, 1_000_000);
    assert_eq!(p.twap_window_slots, 100);
    assert_eq!(p.tick_fp, 1);
    assert_eq!(p.liquidation_bps, 5_000);
    assert_eq!(p.liquidation_bounty_bps, 100);
    assert_eq!(p.max_staleness_secs, 300);
    assert_eq!(p.initial_book_capacity, 64);
}

#[test]
fn layout_uses_solana_program_ids() {
    let l = layout();
    assert_eq!(l.system_program, solana_sdk::system_program::ID.to_bytes());
    assert_eq!(l.token_program, spl_token::ID.to_bytes());
    assert_eq!(l.instructions_sysvar, solana_sdk::sysvar::instructions::ID.to_bytes());
}

#[test]
fn pdas_match_find_program_address() {
    let l = layout();
    let mint = [5u8; 32];
    let owner = [6u8; 32];
    assert_eq!(l.config_pda().unwrap(), pda(&[b"config"]));
    assert_ne!(l.config_pda().unwrap(), program().to_bytes());
    assert_eq!(l.fee_schedule_pda().unwrap(), pda(&[b"fee_schedule"]));
    assert_eq!(l.vault_authority(&mint).unwrap(), pda(&[b"vault", &mint]));
    assert_eq!(l.margin_pda(&owner, &mint).unwrap(), pda(&[b"margin", &owner, &mint]));
    assert_eq!(l.book_pda(&owner).unwrap(), pda(&[b"book", &owner]));
    assert_eq!(l.market_nonce_pda(&[7u8; 32]).unwrap(), pda(&[b"market_nonce", &[7u8; 32]]));
    assert_eq!(l.user_volume_pda(&owner, &mint).unwrap(), pda(&[b"user_volume", &owner, &mint]));
    assert_eq!(l.fee_treasury_pda(&mint).unwrap(), pda(&[b"treasury", &mint]));
    assert_eq!(l.timelock_pda(9).unwrap(), pda(&[b"timelock", &9u64.to_le_bytes()]));
    let (k, bump) = l.pda(&vec![b"config".to_vec()]).unwrap();
    assert_eq!((Pubkey::new_from_array(k), bump), Pubkey::find_program_address(&[b"config"], &program()));
}

#[test]
fn instrument_pda_seeds_are_little_endian_params() {
    let l = layout();
    let p = InstrumentParams::default();
    let expected = pda(&[
        b"instrument",
        &[p.source],
        &p.market_id,
        &p.leverage_bps.to_le_bytes(),
        &p.collateral_bucket.to_le_bytes(),
        &p.twap_window_slots.to_le_bytes(),
    ]);
    assert_eq!(l.instrument_pda(&p).unwrap(), expected);
}

#[test]
fn vault_ata_is_the_associated_token_address() {
    let l = layout();
    let mint = [5u8; 32];
    let authority = Pubkey::new_from_array(l.vault_authority(&mint).unwrap());
    let expected = spl_associated_token_account::get_associated_token_address(
        &authority,
        &Pubkey::new_from_array(mint),
    );
    assert_eq!(l.vault_ata(&mint).unwrap(), expected.to_bytes());
    assert_ne!(l.vault_ata(&mint).unwrap(), authority.to_bytes());
}

#[test]
fn framing_prefixes_the_tag() {
    assert_eq!(instruction_data(7, &[1, 2, 3]), vec![7, 1, 2, 3]);
    assert_eq!(bare_instruction_data(4), vec![4]);
}

#[test]
fn deposit_ix_accounts() {
    let l = layout();
    let owner = [6u8; 32];
    let mint = [5u8; 32];
    let ata = [8u8; 32];
    let ix = l.deposit_ix(&100u64.to_le_bytes(), owner, mint, ata).unwrap();
    assert_eq!(ix.program_id, program().to_bytes());
    assert_eq!(ix.data, vec![2, 100, 0, 0, 0, 0, 0, 0, 0]);
    let keys: Vec<[u8; 32]> = ix.accounts.iter().map(|a| a.pubkey).collect();
    assert_eq!(
        keys,
        vec![owner, l.margin_pda(&owner, &mint).unwrap(), mint, ata, l.vault_ata(&mint).unwrap(), l.token_program]
    );
    let f: Vec<(bool, bool)> = ix.accounts.iter().map(flags).collect();
    assert_eq!(
        f,
        vec![(true, false), (false, true), (false, false), (false, true), (false, true), (false, false)]
    );
}

#[test]
fn withdraw_ix_adds_the_vault_authority() {
    let l = layout();
    let owner = [6u8; 32];
    let mint = [5u8; 32];
    let ix = l.withdraw_ix(&[1], owner, mint, [8u8; 32]).unwrap();
    assert_eq!(ix.accounts.len(), 7);
    assert_eq!(ix.accounts[5].pubkey, l.vault_authority(&mint).unwrap());
    assert_eq!(flags(&ix.accounts[5]), (false, false));
    assert_eq!(ix.data, vec![3, 1]);
}

#[test]
fn init_program_config_ix_accounts() {
    let l = layout();
    let ix = l.init_program_config_ix(&[9, 9], [3u8; 32]).unwrap();
    let keys: Vec<[u8; 32]> = ix.accounts.iter().map(|a| a.pubkey).collect();
    assert_eq!(keys, vec![[1u8; 32], l.config_pda().unwrap(), [3u8; 32], l.system_program]);
    let f: Vec<(bool, bool)> = ix.accounts.iter().map(flags).collect();
    assert_eq!(f, vec![(true, true), (false, true), (false, false), (false, false)]);
    assert_eq!(ix.data, vec![0, 9, 9]);
}

#[test]
fn create_instrument_ix_accounts() {
    let l = layout();
    let p = InstrumentParams::default();
    let mint = [5u8; 32];
    let ix = l.create_instrument_ix(&[], mint, &p).unwrap();
    let instrument = l.instrument_pda(&p).unwrap();
    let keys: Vec<[u8; 32]> = ix.accounts.iter().map(|a| a.pubkey).collect();
    assert_eq!(
        keys,
        vec![
            [1u8; 32],
            l.config_pda().unwrap(),
            instrument,
            l.book_pda(&instrument).unwrap(),
            mint,
            l.system_program,
            l.market_nonce_pda(&p.market_id).unwrap()
        ]
    );
    assert_eq!(ix.data, vec![5]);
}

#[test]
fn match_pair_ix_accounts() {
    let l = layout();
    let (inst, book, mint, lo, so, pmlc) = ([11u8; 32], [12u8; 32], [5u8; 32], [13u8; 32], [14u8; 32], [15u8; 32]);
    let ix = l.match_pair_ix(&[], inst, book, mint, lo, so, pmlc, so, lo).unwrap();
    let keys: Vec<[u8; 32]> = ix.accounts.iter().map(|a| a.pubkey).collect();
    assert_eq!(
        keys,
        vec![
            [1u8; 32],
            inst,
            book,
            l.margin_pda(&lo, &mint).unwrap(),
            l.margin_pda(&so, &mint).unwrap(),
            pmlc,
            l.system_program,
            l.fee_schedule_pda().unwrap(),
            l.user_volume_pda(&so, &mint).unwrap(),
            l.user_volume_pda(&lo, &mint).unwrap(),
            l.fee_treasury_pda(&mint).unwrap()
        ]
    );
    assert_eq!(flags(&ix.accounts[0]), (true, true));
    assert_eq!(flags(&ix.accounts[7]), (false, false));
}

#[test]
fn set_global_pause_payload_is_one_raw_byte() {
    let l = layout();
    assert_eq!(l.set_global_pause_ix(true).unwrap().data, vec![9, 1]);
    assert_eq!(l.set_global_pause_ix(false).unwrap().data, vec![9, 0]);
    let ix = l.set_global_pause_ix(true).unwrap();
    assert_eq!(flags(&ix.accounts[0]), (true, false));
    assert_eq!(ix.accounts[1].pubkey, l.config_pda().unwrap());
    assert_eq!(flags(&ix.accounts[1]), (false, true));
}

#[test]
fn timelock_ix_accounts() {
    let l = layout();
    let p = l.propose_set_attestation_signer_ix(&[], 4).unwrap();
    assert_eq!(p.accounts[2].pubkey, l.timelock_pda(4).unwrap());
    let e = l.execute_set_attestation_signer_ix(&[], 4).unwrap();
    assert_eq!(flags(&e.accounts[1]), (false, true));
    assert_eq!(e.accounts[2].pubkey, l.timelock_pda(4).unwrap());
    let c = l.cancel_timelock_ix(&[], 4).unwrap();
    assert_eq!(c.accounts.len(), 2);
    assert_eq!(c.data, vec![12]);
}

#[test]
fn liquidate_and_resolve_ix_accounts() {
    let l = layout();
    let (inst, pmlc, mint, market, keeper, lo, so) =
        ([11u8; 32], [15u8; 32], [5u8; 32], [7u8; 32], [16u8; 32], [13u8; 32], [14u8; 32]);
    let ix = l.liquidate_ix(&[0], inst, pmlc, mint, market, keeper, lo, so).unwrap();
    let keys: Vec<[u8; 32]> = ix.accounts.iter().map(|a| a.pubkey).collect();
    assert_eq!(
        keys,
        vec![
            keeper,
            l.config_pda().unwrap(),
            l.instructions_sysvar,
            inst,
            pmlc,
            l.market_nonce_pda(&market).unwrap(),
            l.margin_pda(&lo, &mint).unwrap(),
            l.margin_pda(&so, &mint).unwrap(),
            l.margin_pda(&keeper, &mint).unwrap()
        ]
    );
    assert_eq!(flags(&ix.accounts[0]), (true, true));
    let r = l.resolve_ix(&[0], inst, pmlc, mint, market, lo, so).unwrap();
    assert_eq!(r.accounts.len(), 8);
    assert_eq!(flags(&r.accounts[0]), (true, false));
    assert_eq!(r.data, vec![16, 0]);
}

#[test]
fn position_ix_accounts() {
    let l = layout();
    let (inst, book, pmlc, mint, a, b) = ([11u8; 32], [12u8; 32], [15u8; 32], [5u8; 32], [13u8; 32], [14u8; 32]);
    let n = l.novate_ix(&[0], inst, pmlc, mint, a, b).unwrap();
    assert_eq!(flags(&n.accounts[0]), (true, false));
    assert_eq!(flags(&n.accounts[1]), (true, false));
    assert_eq!(n.accounts[6].pubkey, l.margin_pda(&b, &mint).unwrap());
    let s = l.match_substitute_with_settle_ix(&[], inst, book, pmlc, mint, a, b).unwrap();
    assert_eq!(s.accounts.len(), 6);
    assert_eq!(s.accounts[5].pubkey, l.margin_pda(&b, &mint).unwrap());
    let p = l.post_intent_ix(&[], a, inst, book, mint).unwrap();
    assert_eq!(p.accounts[4].pubkey, l.margin_pda(&a, &mint).unwrap());
    let e = l.expand_intent_book_ix(&[], inst, book).unwrap();
    assert_eq!(flags(&e.accounts[3]), (false, true));
    let m = l.create_margin_account_ix(a, mint).unwrap();
    assert_eq!(m.data, vec![1]);
    assert_eq!(flags(&m.accounts[0]), (true, true));
    let f = l.init_fee_schedule_ix(&[]).unwrap();
    assert_eq!(f.accounts[2].pubkey, l.fee_schedule_pda().unwrap());
    let c = l.close_pmlc_ix(pmlc);
    assert_eq!(c.data, vec![17]);
    assert_eq!(c.accounts[1].pubkey, pmlc);
}

#[test]
fn attestation_timestamp_clamps_at_zero() {
    assert_eq!(attestation_timestamp(-5), 0);
    assert_eq!(attestation_timestamp(0), 0);
    assert_eq!(attestation_timestamp(1_700_000_000), 1_700_000_000);
}

#[test]
fn settlement_attestations_use_the_clamped_time() {
    let a = Attestor::new(AttestationFormat { magic: *b"ABCD", price_twap: 1, resolution: 2, historical_liquidation: 3 });
    let liq = liquidation_attestation(&a, [7u8; 32], -3, 5, [4u8; 32], 9);
    assert_eq!(liq, a.historical_liquidation([7u8; 32], 0, 5, [4u8; 32], 9, -3));
    let res = resolution_attestation(&a, [7u8; 32], 100, 6, 10_000);
    assert_eq!(res, a.resolution([7u8; 32], 100, 6, 10_000, 100));
}

#[test]
fn invalid_seeds_find_no_address() {
    let l = layout();
    assert_eq!(l.pda(&vec![vec![0u8; 33]]), None);
    let mut bad = seeds();
    bad.config = vec![1u8; 33];
    let l2 = ProgramLayout::new(program().to_bytes(), [1u8; 32], bad, tags());
    assert_eq!(l2.config_pda(), None);
    assert!(l2.init_program_config_ix(&[], [3u8; 32]).is_none());
    assert!(l2.set_global_pause_ix(true).is_none());
    assert!(l2.deposit_ix(&[], [6u8; 32], [5u8; 32], [8u8; 32]).is_some());
}
