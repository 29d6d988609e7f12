//! The program's instructions as plain values.
//!
//! Every instruction of the program is one tag byte followed by its
//! encoded arguments, sent to the program with a fixed list of accounts.
//! Most of those accounts are program-derived addresses (PDAs) of the
//! program's seeds. `ProgramLayout` holds what the program fixes (its id,
//! seeds and instruction tags, handed in by whoever knows the program)
//! and builds each instruction: which accounts, in which order, signing
//! or written, and the framed data.

use vstd::prelude::*;
use crate::attestor::{
    attestation_bytes, historical_liquidation_payload, resolution_payload, Attestor,
    ATTESTATION_LEN,
};
use crate::instruction::{
    bare_instruction_data, framed_data, instruction_data, readonly, writable, AccountRef, ProgramIx,
};
use crate::wire::{append_bytes, le32, le64, lemma_le_lengths, u32_le, u64_le};
use vstd::bytes::{spec_u32_to_le_bytes, spec_u64_to_le_bytes};
use solana_sdk::pubkey::Pubkey;
use solana_sdk::system_program;
use solana_sdk::sysvar::instructions as sysvar_instructions;

verus! {

/// One SOL in lamports, for airdrops.
pub const SOL: u64 = 1_000_000_000;

/// Parameters of an instrument: the program's `CreateInstrumentArgs`
/// without the source token ids (opaque to the program; left zeroed).
#[derive(Clone, Copy, Debug)]
pub struct InstrumentParams {
    pub source: u8,
    pub market_id: [u8; 32],
    pub leverage_bps: u32,
    pub collateral_bucket: u64,
    pub twap_window_slots: u64,
    pub tick_fp: u64,
    pub liquidation_bps: u32,
    pub liquidation_bounty_bps: u16,
    pub max_staleness_secs: u64,
    pub initial_book_capacity: u32,
}

impl Default for InstrumentParams {
    /// Source 0, market id of sevens, 2x leverage, a 1-unit (1e6 atom)
    /// collateral bucket, a 100-slot TWAP window, tick 1, liquidation at
    /// 50%, a 1% bounty, 300 s staleness and a 64-node book.
    fn default() -> (p: Self)
        ensures
            p.source == 0,
            p.market_id@ == Seq::new(32, |i: int| 7u8),
            p.leverage_bps == 20_000,
            p.collateral_bucket == 1_000_000,
            p.twap_window_slots == 100,
            p.tick_fp == 1,
            p.liquidation_bps == 5_000,
            p.liquidation_bounty_bps == 100,
            p.max_staleness_secs == 300,
            p.initial_book_capacity == 64,
    {
        let p = InstrumentParams {
            source: 0,
            market_id: [7u8; 32],
            leverage_bps: 20_000,
            collateral_bucket: 1_000_000,
            twap_window_slots: 100,
            tick_fp: 1,
            liquidation_bps: 5_000,
            liquidation_bounty_bps: 100,
            max_staleness_secs: 300,
            initial_book_capacity: 64,
        };
        assert(p.market_id@ =~= Seq::new(32, |i: int| 7u8));
        p
    }
}

/// What `Pubkey::try_find_program_address` finds for `seeds` under
/// `program_id`: the program-derived address and its bump, or none when
/// the seeds are invalid or no bump seed gives an off-curve address.
pub uninterp spec fn program_address(seeds: Seq<Seq<u8>>, program_id: Seq<u8>) -> Option<(Seq<u8>, u8)>;

/// The address part of a found program address.
pub open spec fn address_of(found: Option<(Seq<u8>, u8)>) -> Option<Seq<u8>> {
    match found {
        Some(f) => Some(f.0),
        None => None,
    }
}

/// An optional key by its bytes.
pub open spec fn key_view(k: Option<[u8; 32]>) -> Option<Seq<u8>> {
    match k {
        Some(k) => Some(k@),
        None => None,
    }
}

/// An optional found address and bump by value.
pub open spec fn found_view(f: Option<([u8; 32], u8)>) -> Option<(Seq<u8>, u8)> {
    match f {
        Some(f) => Some((f.0@, f.1)),
        None => None,
    }
}

/// Calls `Pubkey::try_find_program_address(seeds, program_id)`. Claimed:
/// the result, address by its bytes, is the named program address of the
/// seeds (by value) under the program id. The call does not panic: it
/// answers none for invalid seeds and when no bump seed is found.
#[verifier::external_body]
fn try_find_program_address(seeds: &Vec<Vec<u8>>, program_id: &[u8; 32]) -> (found: Option<([u8; 32], u8)>)
    ensures
        found_view(found) == program_address(seeds.deep_view(), program_id@),
{
    let parts: Vec<&[u8]> = seeds.iter().map(|s| s.as_slice()).collect();
    Pubkey::try_find_program_address(&parts, &Pubkey::new_from_array(*program_id))
        .map(|(key, bump)| (key.to_bytes(), bump))
}

/// The SPL token program id, `TokenkegQfeZyiNwAJbNbGKPFXCWuBvf9Ss623VQ5DA`.
pub open spec fn token_program_id_bytes() -> Seq<u8> {
    seq![
        6u8, 221, 246, 225, 215, 101, 161, 147, 217, 203, 225, 70, 206, 235, 121, 172,
        28, 180, 133, 237, 95, 91, 55, 145, 58, 140, 245, 133, 126, 255, 0, 169,
    ]
}

/// The associated token account program id,
/// `ATokenGPvbdGVxr1b2hvZbsiqW5xWH25efTNsLJA8knL`.
pub open spec fn associated_token_program_id_bytes() -> Seq<u8> {
    seq![
        140u8, 151, 37, 143, 78, 36, 137, 241, 187, 61, 16, 41, 20, 142, 13, 131,
        11, 90, 19, 153, 218, 255, 16, 132, 4, 142, 123, 216, 219, 233, 248, 89,
    ]
}

/// The instructions sysvar id, `Sysvar1nstructions1111111111111111111111111`.
pub open spec fn instructions_sysvar_id_bytes() -> Seq<u8> {
    seq![
        6u8, 167, 213, 23, 24, 123, 209, 102, 53, 218, 212, 4, 85, 253, 194, 192,
        193, 36, 198, 143, 33, 86, 117, 165, 219, 186, 203, 95, 8, 0, 0, 0,
    ]
}

/// Reads `spl_token::ID`. Claimed: its bytes are the base58 decoding of
/// the id its `declare_id!` gives.
#[verifier::external_body]
fn token_program_id() -> (id: [u8; 32])
    ensures
        id@ == token_program_id_bytes(),
{
    spl_token::ID.to_bytes()
}

/// Reads `system_program::ID`. Claimed: it is 32 zero bytes, the base58
/// decoding of `11111111111111111111111111111111`.
#[verifier::external_body]
fn system_program_id() -> (id: [u8; 32])
    ensures
        id@ == Seq::new(32, |i: int| 0u8),
{
    system_program::ID.to_bytes()
}

/// Reads `sysvar::instructions::ID`. Claimed: its bytes are the base58
/// decoding of the id its `declare_sysvar_id!` gives.
#[verifier::external_body]
fn instructions_sysvar_id() -> (id: [u8; 32])
    ensures
        id@ == instructions_sysvar_id_bytes(),
{
    sysvar_instructions::ID.to_bytes()
}

/// Reads `spl_associated_token_account::ID`. Claimed: its bytes are the
/// base58 decoding of the id its `declare_id!` gives.
#[verifier::external_body]
fn associated_token_program_id() -> (id: [u8; 32])
    ensures
        id@ == associated_token_program_id_bytes(),
{
    spl_associated_token_account::ID.to_bytes()
}

/// Append `seed` (by value) to a seed list.
fn push_seed(seeds: &mut Vec<Vec<u8>>, seed: &[u8])
    ensures
        final(seeds).deep_view() == old(seeds).deep_view().push(seed@),
{
    let mut v: Vec<u8> = Vec::new();
    append_bytes(&mut v, seed);
    assert(v.deep_view() =~= seed@);
    seeds.push(v);
    assert(seeds.deep_view() =~= old(seeds).deep_view().push(seed@));
}

/// The program's PDA seed prefixes.
#[derive(Debug)]
pub struct ProgramSeeds {
    pub config: Vec<u8>,
    pub vault: Vec<u8>,
    pub margin: Vec<u8>,
    pub fee_schedule: Vec<u8>,
    pub instrument: Vec<u8>,
    pub book: Vec<u8>,
    pub market_nonce: Vec<u8>,
    pub timelock: Vec<u8>,
    pub user_volume: Vec<u8>,
    pub treasury: Vec<u8>,
}

/// The program's instruction tag bytes.
#[derive(Clone, Copy, Debug)]
pub struct ProgramTags {
    pub init_program_config: u8,
    pub create_margin_account: u8,
    pub deposit: u8,
    pub withdraw: u8,
    pub init_fee_schedule: u8,
    pub create_instrument: u8,
    pub expand_intent_book: u8,
    pub post_intent: u8,
    pub match_pair: u8,
    pub set_global_pause: u8,
    pub propose_set_attestation_signer: u8,
    pub execute_set_attestation_signer: u8,
    pub cancel_timelock_proposal: u8,
    pub novate: u8,
    pub match_substitute_with_settle: u8,
    pub liquidate: u8,
    pub resolve: u8,
    pub close_pmlc: u8,
}

/// What the program fixes, plus the default fee payer (the admin).
#[derive(Debug)]
pub struct ProgramLayout {
    pub program_id: [u8; 32],
    pub payer: [u8; 32],
    pub system_program: [u8; 32],
    pub token_program: [u8; 32],
    pub instructions_sysvar: [u8; 32],
    pub seeds: ProgramSeeds,
    pub tags: ProgramTags,
}

/// The seeds of an instrument's PDA: the prefix, the source byte, the
/// market id, then the leverage, collateral bucket and TWAP window in
/// little-endian order.
pub open spec fn instrument_seeds(prefix: Seq<u8>, p: InstrumentParams) -> Seq<Seq<u8>> {
    seq![
        prefix,
        seq![p.source],
        p.market_id@,
        le32(p.leverage_bps),
        le64(p.collateral_bucket),
        le64(p.twap_window_slots),
    ]
}

impl ProgramLayout {
    /// The layout of the program `program_id` with seeds `seeds`, tags
    /// `tags` and admin `payer`; the system program, token program and
    /// instructions sysvar ids are Solana's.
    pub fn new(program_id: [u8; 32], payer: [u8; 32], seeds: ProgramSeeds, tags: ProgramTags) -> (l:
        ProgramLayout)
        ensures
            l.program_id == program_id,
            l.payer == payer,
            l.seeds == seeds,
            l.tags == tags,
            l.system_program@ == Seq::new(32, |i: int| 0u8),
            l.token_program@ == token_program_id_bytes(),
            l.instructions_sysvar@ == instructions_sysvar_id_bytes(),
    {
        ProgramLayout {
            program_id,
            payer,
            system_program: system_program_id(),
            token_program: token_program_id(),
            instructions_sysvar: instructions_sysvar_id(),
            seeds,
            tags,
        }
    }

    /// The program address of `seeds` under this program, if one exists.
    pub open spec fn pda_of(&self, seeds: Seq<Seq<u8>>) -> Option<Seq<u8>> {
        address_of(program_address(seeds, self.program_id@))
    }

    /// The config PDA: `[config]`.
    pub open spec fn config_address(&self) -> Option<Seq<u8>> {
        self.pda_of(seq![self.seeds.config@])
    }

    /// The fee-schedule PDA: `[fee_schedule]`.
    pub open spec fn fee_schedule_address(&self) -> Option<Seq<u8>> {
        self.pda_of(seq![self.seeds.fee_schedule@])
    }

    /// The vault-authority PDA of a mint: `[vault, mint]`.
    pub open spec fn vault_authority_address(&self, mint: Seq<u8>) -> Option<Seq<u8>> {
        self.pda_of(seq![self.seeds.vault@, mint])
    }

    /// The vault's associated token account for a mint: the program
    /// address of `[vault authority, token program id, mint]` under the
    /// associated token account program.
    pub open spec fn vault_ata_address(&self, mint: Seq<u8>) -> Option<Seq<u8>> {
        match self.vault_authority_address(mint) {
            Some(authority) => address_of(
                program_address(
                    seq![authority, token_program_id_bytes(), mint],
                    associated_token_program_id_bytes(),
                ),
            ),
            None => None,
        }
    }

    /// The margin-account PDA: `[margin, owner, mint]`.
    pub open spec fn margin_address(&self, owner: Seq<u8>, mint: Seq<u8>) -> Option<Seq<u8>> {
        self.pda_of(seq![self.seeds.margin@, owner, mint])
    }

    /// The instrument PDA of a parameter set.
    pub open spec fn instrument_address(&self, p: InstrumentParams) -> Option<Seq<u8>> {
        self.pda_of(instrument_seeds(self.seeds.instrument@, p))
    }

    /// The intent-book PDA of an instrument: `[book, instrument]`.
    pub open spec fn book_address(&self, instrument: Seq<u8>) -> Option<Seq<u8>> {
        self.pda_of(seq![self.seeds.book@, instrument])
    }

    /// The intent-book PDA of the instrument of a parameter set.
    pub open spec fn instrument_book_address(&self, p: InstrumentParams) -> Option<Seq<u8>> {
        match self.instrument_address(p) {
            Some(instrument) => self.book_address(instrument),
            None => None,
        }
    }

    /// The market-nonce PDA: `[market_nonce, market_id]`.
    pub open spec fn market_nonce_address(&self, market_id: Seq<u8>) -> Option<Seq<u8>> {
        self.pda_of(seq![self.seeds.market_nonce@, market_id])
    }

    /// The user-volume PDA: `[user_volume, owner, mint]`.
    pub open spec fn user_volume_address(&self, owner: Seq<u8>, mint: Seq<u8>) -> Option<Seq<u8>> {
        self.pda_of(seq![self.seeds.user_volume@, owner, mint])
    }

    /// The fee-treasury PDA of a mint: `[treasury, mint]`.
    pub open spec fn fee_treasury_address(&self, mint: Seq<u8>) -> Option<Seq<u8>> {
        self.pda_of(seq![self.seeds.treasury@, mint])
    }

    /// The timelock proposal PDA: `[timelock, proposal_id (u64 LE)]`.
    pub open spec fn timelock_address(&self, proposal_id: u64) -> Option<Seq<u8>> {
        self.pda_of(seq![self.seeds.timelock@, le64(proposal_id)])
    }

    /// Derive a program PDA (and its bump) from the given seeds, by value;
    /// none when the seeds are invalid or no bump seed is found.
    pub fn pda(&self, seeds: &Vec<Vec<u8>>) -> (found: Option<([u8; 32], u8)>)
        ensures
            found_view(found) == program_address(seeds.deep_view(), self.program_id@),
    {
        try_find_program_address(seeds, &self.program_id)
    }

    fn pda_key(&self, seeds: &Vec<Vec<u8>>) -> (k: Option<[u8; 32]>)
        ensures
            key_view(k) == self.pda_of(seeds.deep_view()),
    {
        match self.pda(seeds) {
            Some(found) => Some(found.0),
            None => None,
        }
    }

    /// The singleton `ProgramConfig` PDA, if one exists.
    pub fn config_pda(&self) -> (k: Option<[u8; 32]>)
        ensures
            key_view(k) == self.config_address(),
    {
        let mut seeds: Vec<Vec<u8>> = Vec::new();
        push_seed(&mut seeds, self.seeds.config.as_slice());
        assert(seeds.deep_view() =~= seq![self.seeds.config@]);
        self.pda_key(&seeds)
    }

    /// The singleton fee-schedule PDA, if one exists.
    pub fn fee_schedule_pda(&self) -> (k: Option<[u8; 32]>)
        ensures
            key_view(k) == self.fee_schedule_address(),
    {
        let mut seeds: Vec<Vec<u8>> = Vec::new();
        push_seed(&mut seeds, self.seeds.fee_schedule.as_slice());
        assert(seeds.deep_view() =~= seq![self.seeds.fee_schedule@]);
        self.pda_key(&seeds)
    }

    /// The `[vault, mint]` vault-authority PDA, if one exists.
    pub fn vault_authority(&self, mint: &[u8; 32]) -> (k: Option<[u8; 32]>)
        ensures
            key_view(k) == self.vault_authority_address(mint@),
    {
        let mut seeds: Vec<Vec<u8>> = Vec::new();
        push_seed(&mut seeds, self.seeds.vault.as_slice());
        push_seed(&mut seeds, mint.as_slice());
        assert(seeds.deep_view() =~= seq![self.seeds.vault@, mint@]);
        self.pda_key(&seeds)
    }

    /// The canonical protocol collateral vault ATA for `mint`: the
    /// associated token account of the vault authority, derived as
    /// `spl_associated_token_account::get_associated_token_address` does
    /// (`[wallet, token program id, mint]` under the associated token
    /// account program); none where no address is found.
    pub fn vault_ata(&self, mint: &[u8; 32]) -> (k: Option<[u8; 32]>)
        ensures
            key_view(k) == self.vault_ata_address(mint@),
    {
        let authority = match self.vault_authority(mint) {
            Some(a) => a,
            None => return None,
        };
        let token_program: [u8; 32] = token_program_id();
        let mut seeds: Vec<Vec<u8>> = Vec::new();
        push_seed(&mut seeds, authority.as_slice());
        push_seed(&mut seeds, token_program.as_slice());
        push_seed(&mut seeds, mint.as_slice());
        assert(seeds.deep_view() =~= seq![authority@, token_program_id_bytes(), mint@]);
        match try_find_program_address(&seeds, &associated_token_program_id()) {
            Some(found) => Some(found.0),
            None => None,
        }
    }

    /// The `[margin, owner, mint]` margin-account PDA, if one exists.
    pub fn margin_pda(&self, owner: &[u8; 32], mint: &[u8; 32]) -> (k: Option<[u8; 32]>)
        ensures
            key_view(k) == self.margin_address(owner@, mint@),
    {
        let mut seeds: Vec<Vec<u8>> = Vec::new();
        push_seed(&mut seeds, self.seeds.margin.as_slice());
        push_seed(&mut seeds, owner.as_slice());
        push_seed(&mut seeds, mint.as_slice());
        assert(seeds.deep_view() =~= seq![self.seeds.margin@, owner@, mint@]);
        self.pda_key(&seeds)
    }

    /// The instrument PDA for a parameter set, if one exists.
    pub fn instrument_pda(&self, p: &InstrumentParams) -> (k: Option<[u8; 32]>)
        ensures
            key_view(k) == self.instrument_address(*p),
    {
        proof {
            lemma_le_lengths();
        }
        let mut seeds: Vec<Vec<u8>> = Vec::new();
        push_seed(&mut seeds, self.seeds.instrument.as_slice());
        let source: [u8; 1] = [p.source];
        push_seed(&mut seeds, source.as_slice());
        push_seed(&mut seeds, p.market_id.as_slice());
        push_seed(&mut seeds, u32_le(p.leverage_bps).as_slice());
        push_seed(&mut seeds, u64_le(p.collateral_bucket).as_slice());
        push_seed(&mut seeds, u64_le(p.twap_window_slots).as_slice());
        assert(source@ =~= seq![p.source]);
        assert(seeds.deep_view() =~= instrument_seeds(self.seeds.instrument@, *p));
        self.pda_key(&seeds)
    }

    /// The intent-book PDA for an instrument, if one exists.
    pub fn book_pda(&self, instrument: &[u8; 32]) -> (k: Option<[u8; 32]>)
        ensures
            key_view(k) == self.book_address(instrument@),
    {
        let mut seeds: Vec<Vec<u8>> = Vec::new();
        push_seed(&mut seeds, self.seeds.book.as_slice());
        push_seed(&mut seeds, instrument.as_slice());
        assert(seeds.deep_view() =~= seq![self.seeds.book@, instrument@]);
        self.pda_key(&seeds)
    }

    /// The per-market `[market_nonce, market_id]` PDA, if one exists.
    pub fn market_nonce_pda(&self, market_id: &[u8; 32]) -> (k: Option<[u8; 32]>)
        ensures
            key_view(k) == self.market_nonce_address(market_id@),
    {
        let mut seeds: Vec<Vec<u8>> = Vec::new();
        push_seed(&mut seeds, self.seeds.market_nonce.as_slice());
        push_seed(&mut seeds, market_id.as_slice());
        assert(seeds.deep_view() =~= seq![self.seeds.market_nonce@, market_id@]);
        self.pda_key(&seeds)
    }

    /// The `[user_volume, owner, mint]` PDA, if one exists.
    pub fn user_volume_pda(&self, owner: &[u8; 32], mint: &[u8; 32]) -> (k: Option<[u8; 32]>)
        ensures
            key_view(k) == self.user_volume_address(owner@, mint@),
    {
        let mut seeds: Vec<Vec<u8>> = Vec::new();
        push_seed(&mut seeds, self.seeds.user_volume.as_slice());
        push_seed(&mut seeds, owner.as_slice());
        push_seed(&mut seeds, mint.as_slice());
        assert(seeds.deep_view() =~= seq![self.seeds.user_volume@, owner@, mint@]);
        self.pda_key(&seeds)
    }

    /// The `[treasury, mint]` fee-treasury PDA, if one exists.
    pub fn fee_treasury_pda(&self, mint: &[u8; 32]) -> (k: Option<[u8; 32]>)
        ensures
            key_view(k) == self.fee_treasury_address(mint@),
    {
        let mut seeds: Vec<Vec<u8>> = Vec::new();
        push_seed(&mut seeds, self.seeds.treasury.as_slice());
        push_seed(&mut seeds, mint.as_slice());
        assert(seeds.deep_view() =~= seq![self.seeds.treasury@, mint@]);
        self.pda_key(&seeds)
    }

    /// The `[timelock, proposal_id]` proposal PDA, if one exists.
    pub fn timelock_pda(&self, proposal_id: u64) -> (k: Option<[u8; 32]>)
        ensures
            key_view(k) == self.timelock_address(proposal_id),
    {
        proof {
            lemma_le_lengths();
        }
        let mut seeds: Vec<Vec<u8>> = Vec::new();
        push_seed(&mut seeds, self.seeds.timelock.as_slice());
        push_seed(&mut seeds, u64_le(proposal_id).as_slice());
        assert(seeds.deep_view() =~= seq![self.seeds.timelock@, le64(proposal_id)]);
        self.pda_key(&seeds)
    }

    fn book_of_instrument(&self, p: &InstrumentParams) -> (k: Option<[u8; 32]>)
        ensures
            key_view(k) == self.instrument_book_address(*p),
    {
        match self.instrument_pda(p) {
            Some(instrument) => self.book_pda(&instrument),
            None => None,
        }
    }

    /// `InitProgramConfig`: creates the singleton config PDA with the payer as admin authority; none where the config PDA does not exist.
    pub fn init_program_config_ix(&self, args: &[u8], fee_treasury_authority: [u8; 32]) -> (r: Option<ProgramIx>)
        ensures
            r is Some <==> (self.config_address() is Some),
            r matches Some(ix) ==> {
                &&& ix.program_id == self.program_id
                &&& ix.data@ == framed_data(self.tags.init_program_config, args@)
                &&& ix.accounts_view() == seq![
                    writable(self.payer@, true),
                    writable(self.config_address().unwrap(), false),
                    readonly(fee_treasury_authority@, false),
                    readonly(self.system_program@, false),
                ]
            },
    {
        let a0: [u8; 32] = match self.config_pda() {
            Some(k) => k,
            None => return None,
        };
        let mut accounts: Vec<AccountRef> = Vec::new();
        accounts.push(AccountRef::writable(self.payer, true));
        accounts.push(AccountRef::writable(a0, false));
        accounts.push(AccountRef::readonly(fee_treasury_authority, false));
        accounts.push(AccountRef::readonly(self.system_program, false));
        let data = instruction_data(self.tags.init_program_config, args);
        let ix = ProgramIx { program_id: self.program_id, accounts, data };
        assert(ix.accounts_view() =~= seq![
            writable(self.payer@, true),
            writable(self.config_address().unwrap(), false),
            readonly(fee_treasury_authority@, false),
            readonly(self.system_program@, false),
        ]);
        Some(ix)
    }

    /// `CreateMarginAccount` for `owner` + `mint` (no payload).
    pub fn create_margin_account_ix(&self, owner: [u8; 32], mint: [u8; 32]) -> (r: Option<ProgramIx>)
        ensures
            r is Some <==> (self.margin_address(owner@, mint@) is Some),
            r matches Some(ix) ==> {
                &&& ix.program_id == self.program_id
                &&& ix.data@ == seq![self.tags.create_margin_account]
                &&& ix.accounts_view() == seq![
                    writable(owner@, true),
                    writable(self.margin_address(owner@, mint@).unwrap(), false),
                    readonly(mint@, false),
                    readonly(self.system_program@, false),
                ]
            },
    {
        let a0: [u8; 32] = match self.margin_pda(&owner, &mint) {
            Some(k) => k,
            None => return None,
        };
        let mut accounts: Vec<AccountRef> = Vec::new();
        accounts.push(AccountRef::writable(owner, true));
        accounts.push(AccountRef::writable(a0, false));
        accounts.push(AccountRef::readonly(mint, false));
        accounts.push(AccountRef::readonly(self.system_program, false));
        let data = bare_instruction_data(self.tags.create_margin_account);
        let ix = ProgramIx { program_id: self.program_id, accounts, data };
        assert(ix.accounts_view() =~= seq![
            writable(owner@, true),
            writable(self.margin_address(owner@, mint@).unwrap(), false),
            readonly(mint@, false),
            readonly(self.system_program@, false),
        ]);
        Some(ix)
    }

    /// `Deposit`: move tokens from `owner`'s `user_ata` into the protocol vault and credit `owner`'s margin account.
    pub fn deposit_ix(&self, args: &[u8], owner: [u8; 32], mint: [u8; 32], user_ata: [u8; 32]) -> (r: Option<ProgramIx>)
        ensures
            r is Some <==> (self.margin_address(owner@, mint@) is Some && self.vault_ata_address(mint@) is Some),
            r matches Some(ix) ==> {
                &&& ix.program_id == self.program_id
                &&& ix.data@ == framed_data(self.tags.deposit, args@)
                &&& ix.accounts_view() == seq![
                    readonly(owner@, true),
                    writable(self.margin_address(owner@, mint@).unwrap(), false),
                    readonly(mint@, false),
                    writable(user_ata@, false),
                    writable(self.vault_ata_address(mint@).unwrap(), false),
                    readonly(self.token_program@, false),
                ]
            },
    {
        let a0: [u8; 32] = match self.margin_pda(&owner, &mint) {
            Some(k) => k,
            None => return None,
        };
        let a1: [u8; 32] = match self.vault_ata(&mint) {
            Some(k) => k,
            None => return None,
        };
        let mut accounts: Vec<AccountRef> = Vec::new();
        accounts.push(AccountRef::readonly(owner, true));
        accounts.push(AccountRef::writable(a0, false));
        accounts.push(AccountRef::readonly(mint, false));
        accounts.push(AccountRef::writable(user_ata, false));
        accounts.push(AccountRef::writable(a1, false));
        accounts.push(AccountRef::readonly(self.token_program, false));
        let data = instruction_data(self.tags.deposit, args);
        let ix = ProgramIx { program_id: self.program_id, accounts, data };
        assert(ix.accounts_view() =~= seq![
            readonly(owner@, true),
            writable(self.margin_address(owner@, mint@).unwrap(), false),
            readonly(mint@, false),
            writable(user_ata@, false),
            writable(self.vault_ata_address(mint@).unwrap(), false),
            readonly(self.token_program@, false),
        ]);
        Some(ix)
    }

    /// `Withdraw`: move tokens from the protocol vault back to `owner`'s `user_ata`.
    pub fn withdraw_ix(&self, args: &[u8], owner: [u8; 32], mint: [u8; 32], user_ata: [u8; 32]) -> (r: Option<ProgramIx>)
        ensures
            r is Some <==> (self.margin_address(owner@, mint@) is Some && self.vault_ata_address(mint@) is Some && self.vault_authority_address(mint@) is Some),
            r matches Some(ix) ==> {
                &&& ix.program_id == self.program_id
                &&& ix.data@ == framed_data(self.tags.withdraw, args@)
                &&& ix.accounts_view() == seq![
                    readonly(owner@, true),
                    writable(self.margin_address(owner@, mint@).unwrap(), false),
                    readonly(mint@, false),
                    writable(user_ata@, false),
                    writable(self.vault_ata_address(mint@).unwrap(), false),
                    readonly(self.vault_authority_address(mint@).unwrap(), false),
                    readonly(self.token_program@, false),
                ]
            },
    {
        let a0: [u8; 32] = match self.margin_pda(&owner, &mint) {
            Some(k) => k,
            None => return None,
        };
        let a1: [u8; 32] = match self.vault_ata(&mint) {
            Some(k) => k,
            None => return None,
        };
        let a2: [u8; 32] = match self.vault_authority(&mint) {
            Some(k) => k,
            None => return None,
        };
        let mut accounts: Vec<AccountRef> = Vec::new();
        accounts.push(AccountRef::readonly(owner, true));
        accounts.push(AccountRef::writable(a0, false));
        accounts.push(AccountRef::readonly(mint, false));
        accounts.push(AccountRef::writable(user_ata, false));
        accounts.push(AccountRef::writable(a1, false));
        accounts.push(AccountRef::readonly(a2, false));
        accounts.push(AccountRef::readonly(self.token_program, false));
        let data = instruction_data(self.tags.withdraw, args);
        let ix = ProgramIx { program_id: self.program_id, accounts, data };
        assert(ix.accounts_view() =~= seq![
            readonly(owner@, true),
            writable(self.margin_address(owner@, mint@).unwrap(), false),
            readonly(mint@, false),
            writable(user_ata@, false),
            writable(self.vault_ata_address(mint@).unwrap(), false),
            readonly(self.vault_authority_address(mint@).unwrap(), false),
            readonly(self.token_program@, false),
        ]);
        Some(ix)
    }

    /// `InitFeeSchedule`: creates the fee-schedule PDA (admin = payer).
    pub fn init_fee_schedule_ix(&self, args: &[u8]) -> (r: Option<ProgramIx>)
        ensures
            r is Some <==> (self.config_address() is Some && self.fee_schedule_address() is Some),
            r matches Some(ix) ==> {
                &&& ix.program_id == self.program_id
                &&& ix.data@ == framed_data(self.tags.init_fee_schedule, args@)
                &&& ix.accounts_view() == seq![
                    writable(self.payer@, true),
                    readonly(self.config_address().unwrap(), false),
                    writable(self.fee_schedule_address().unwrap(), false),
                    readonly(self.system_program@, false),
                ]
            },
    {
        let a0: [u8; 32] = match self.config_pda() {
            Some(k) => k,
            None => return None,
        };
        let a1: [u8; 32] = match self.fee_schedule_pda() {
            Some(k) => k,
            None => return None,
        };
        let mut accounts: Vec<AccountRef> = Vec::new();
        accounts.push(AccountRef::writable(self.payer, true));
        accounts.push(AccountRef::readonly(a0, false));
        accounts.push(AccountRef::writable(a1, false));
        accounts.push(AccountRef::readonly(self.system_program, false));
        let data = instruction_data(self.tags.init_fee_schedule, args);
        let ix = ProgramIx { program_id: self.program_id, accounts, data };
        assert(ix.accounts_view() =~= seq![
            writable(self.payer@, true),
            readonly(self.config_address().unwrap(), false),
            writable(self.fee_schedule_address().unwrap(), false),
            readonly(self.system_program@, false),
        ]);
        Some(ix)
    }

    /// `CreateInstrument`: the admin creates an instrument and its intent book.
    pub fn create_instrument_ix(&self, args: &[u8], mint: [u8; 32], p: &InstrumentParams) -> (r: Option<ProgramIx>)
        ensures
            r is Some <==> (self.config_address() is Some && self.instrument_address(*p) is Some && self.instrument_book_address(*p) is Some && self.market_nonce_address(p.market_id@) is Some),
            r matches Some(ix) ==> {
                &&& ix.program_id == self.program_id
                &&& ix.data@ == framed_data(self.tags.create_instrument, args@)
                &&& ix.accounts_view() == seq![
                    writable(self.payer@, true),
                    readonly(self.config_address().unwrap(), false),
                    writable(self.instrument_address(*p).unwrap(), false),
                    writable(self.instrument_book_address(*p).unwrap(), false),
                    readonly(mint@, false),
                    readonly(self.system_program@, false),
                    writable(self.market_nonce_address(p.market_id@).unwrap(), false),
                ]
            },
    {
        let a0: [u8; 32] = match self.config_pda() {
            Some(k) => k,
            None => return None,
        };
        let a1: [u8; 32] = match self.instrument_pda(p) {
            Some(k) => k,
            None => return None,
        };
        let a2: [u8; 32] = match self.book_of_instrument(p) {
            Some(k) => k,
            None => return None,
        };
        let a3: [u8; 32] = match self.market_nonce_pda(&p.market_id) {
            Some(k) => k,
            None => return None,
        };
        let mut accounts: Vec<AccountRef> = Vec::new();
        accounts.push(AccountRef::writable(self.payer, true));
        accounts.push(AccountRef::readonly(a0, false));
        accounts.push(AccountRef::writable(a1, false));
        accounts.push(AccountRef::writable(a2, false));
        accounts.push(AccountRef::readonly(mint, false));
        accounts.push(AccountRef::readonly(self.system_program, false));
        accounts.push(AccountRef::writable(a3, false));
        let data = instruction_data(self.tags.create_instrument, args);
        let ix = ProgramIx { program_id: self.program_id, accounts, data };
        assert(ix.accounts_view() =~= seq![
            writable(self.payer@, true),
            readonly(self.config_address().unwrap(), false),
            writable(self.instrument_address(*p).unwrap(), false),
            writable(self.instrument_book_address(*p).unwrap(), false),
            readonly(mint@, false),
            readonly(self.system_program@, false),
            writable(self.market_nonce_address(p.market_id@).unwrap(), false),
        ]);
        Some(ix)
    }

    /// `ExpandIntentBook`: grow the book's node pool.
    pub fn expand_intent_book_ix(&self, args: &[u8], instrument: [u8; 32], book: [u8; 32]) -> (r: Option<ProgramIx>)
        ensures
            r is Some <==> (self.config_address() is Some),
            r matches Some(ix) ==> {
                &&& ix.program_id == self.program_id
                &&& ix.data@ == framed_data(self.tags.expand_intent_book, args@)
                &&& ix.accounts_view() == seq![
                    writable(self.payer@, true),
                    readonly(self.config_address().unwrap(), false),
                    readonly(instrument@, false),
                    writable(book@, false),
                    readonly(self.system_program@, false),
                ]
            },
    {
        let a0: [u8; 32] = match self.config_pda() {
            Some(k) => k,
            None => return None,
        };
        let mut accounts: Vec<AccountRef> = Vec::new();
        accounts.push(AccountRef::writable(self.payer, true));
        accounts.push(AccountRef::readonly(a0, false));
        accounts.push(AccountRef::readonly(instrument, false));
        accounts.push(AccountRef::writable(book, false));
        accounts.push(AccountRef::readonly(self.system_program, false));
        let data = instruction_data(self.tags.expand_intent_book, args);
        let ix = ProgramIx { program_id: self.program_id, accounts, data };
        assert(ix.accounts_view() =~= seq![
            writable(self.payer@, true),
            readonly(self.config_address().unwrap(), false),
            readonly(instrument@, false),
            writable(book@, false),
            readonly(self.system_program@, false),
        ]);
        Some(ix)
    }

    /// `PostIntent` (no inline match).
    pub fn post_intent_ix(&self, args: &[u8], owner: [u8; 32], instrument: [u8; 32], book: [u8; 32], mint: [u8; 32]) -> (r: Option<ProgramIx>)
        ensures
            r is Some <==> (self.config_address() is Some && self.margin_address(owner@, mint@) is Some),
            r matches Some(ix) ==> {
                &&& ix.program_id == self.program_id
                &&& ix.data@ == framed_data(self.tags.post_intent, args@)
                &&& ix.accounts_view() == seq![
                    readonly(owner@, true),
                    readonly(self.config_address().unwrap(), false),
                    readonly(instrument@, false),
                    writable(book@, false),
                    writable(self.margin_address(owner@, mint@).unwrap(), false),
                ]
            },
    {
        let a0: [u8; 32] = match self.config_pda() {
            Some(k) => k,
            None => return None,
        };
        let a1: [u8; 32] = match self.margin_pda(&owner, &mint) {
            Some(k) => k,
            None => return None,
        };
        let mut accounts: Vec<AccountRef> = Vec::new();
        accounts.push(AccountRef::readonly(owner, true));
        accounts.push(AccountRef::readonly(a0, false));
        accounts.push(AccountRef::readonly(instrument, false));
        accounts.push(AccountRef::writable(book, false));
        accounts.push(AccountRef::writable(a1, false));
        let data = instruction_data(self.tags.post_intent, args);
        let ix = ProgramIx { program_id: self.program_id, accounts, data };
        assert(ix.accounts_view() =~= seq![
            readonly(owner@, true),
            readonly(self.config_address().unwrap(), false),
            readonly(instrument@, false),
            writable(book@, false),
            writable(self.margin_address(owner@, mint@).unwrap(), false),
        ]);
        Some(ix)
    }

    /// `MatchPair`: match a long and a short intent into the PMLC `pmlc`; `taker` and `maker` own the volume accounts (taker = the side posted later).
    pub fn match_pair_ix(&self, args: &[u8], instrument: [u8; 32], book: [u8; 32], mint: [u8; 32], long_owner: [u8; 32], short_owner: [u8; 32], pmlc: [u8; 32], taker: [u8; 32], maker: [u8; 32]) -> (r: Option<ProgramIx>)
        ensures
            r is Some <==> (self.margin_address(long_owner@, mint@) is Some && self.margin_address(short_owner@, mint@) is Some && self.fee_schedule_address() is Some && self.user_volume_address(taker@, mint@) is Some && self.user_volume_address(maker@, mint@) is Some && self.fee_treasury_address(mint@) is Some),
            r matches Some(ix) ==> {
                &&& ix.program_id == self.program_id
                &&& ix.data@ == framed_data(self.tags.match_pair, args@)
                &&& ix.accounts_view() == seq![
                    writable(self.payer@, true),
                    readonly(instrument@, false),
                    writable(book@, false),
                    writable(self.margin_address(long_owner@, mint@).unwrap(), false),
                    writable(self.margin_address(short_owner@, mint@).unwrap(), false),
                    writable(pmlc@, false),
                    readonly(self.system_program@, false),
                    readonly(self.fee_schedule_address().unwrap(), false),
                    writable(self.user_volume_address(taker@, mint@).unwrap(), false),
                    writable(self.user_volume_address(maker@, mint@).unwrap(), false),
                    writable(self.fee_treasury_address(mint@).unwrap(), false),
                ]
            },
    {
        let a0: [u8; 32] = match self.margin_pda(&long_owner, &mint) {
            Some(k) => k,
            None => return None,
        };
        let a1: [u8; 32] = match self.margin_pda(&short_owner, &mint) {
            Some(k) => k,
            None => return None,
        };
        let a2: [u8; 32] = match self.fee_schedule_pda() {
            Some(k) => k,
            None => return None,
        };
        let a3: [u8; 32] = match self.user_volume_pda(&taker, &mint) {
            Some(k) => k,
            None => return None,
        };
        let a4: [u8; 32] = match self.user_volume_pda(&maker, &mint) {
            Some(k) => k,
            None => return None,
        };
        let a5: [u8; 32] = match self.fee_treasury_pda(&mint) {
            Some(k) => k,
            None => return None,
        };
        let mut accounts: Vec<AccountRef> = Vec::new();
        accounts.push(AccountRef::writable(self.payer, true));
        accounts.push(AccountRef::readonly(instrument, false));
        accounts.push(AccountRef::writable(book, false));
        accounts.push(AccountRef::writable(a0, false));
        accounts.push(AccountRef::writable(a1, false));
        accounts.push(AccountRef::writable(pmlc, false));
        accounts.push(AccountRef::readonly(self.system_program, false));
        accounts.push(AccountRef::readonly(a2, false));
        accounts.push(AccountRef::writable(a3, false));
        accounts.push(AccountRef::writable(a4, false));
        accounts.push(AccountRef::writable(a5, false));
        let data = instruction_data(self.tags.match_pair, args);
        let ix = ProgramIx { program_id: self.program_id, accounts, data };
        assert(ix.accounts_view() =~= seq![
            writable(self.payer@, true),
            readonly(instrument@, false),
            writable(book@, false),
            writable(self.margin_address(long_owner@, mint@).unwrap(), false),
            writable(self.margin_address(short_owner@, mint@).unwrap(), false),
            writable(pmlc@, false),
            readonly(self.system_program@, false),
            readonly(self.fee_schedule_address().unwrap(), false),
            writable(self.user_volume_address(taker@, mint@).unwrap(), false),
            writable(self.user_volume_address(maker@, mint@).unwrap(), false),
            writable(self.fee_treasury_address(mint@).unwrap(), false),
        ]);
        Some(ix)
    }

    /// `SetGlobalPause`: the admin sets the global pause flag. The payload is one raw byte (1 = paused), not Borsh.
    pub fn set_global_pause_ix(&self, paused: bool) -> (r: Option<ProgramIx>)
        ensures
            r is Some <==> (self.config_address() is Some),
            r matches Some(ix) ==> {
                &&& ix.program_id == self.program_id
                &&& ix.data@ == seq![self.tags.set_global_pause, if paused { 1u8 } else { 0u8 }]
                &&& ix.accounts_view() == seq![
                    readonly(self.payer@, true),
                    writable(self.config_address().unwrap(), false),
                ]
            },
    {
        let a0: [u8; 32] = match self.config_pda() {
            Some(k) => k,
            None => return None,
        };
        let mut accounts: Vec<AccountRef> = Vec::new();
        accounts.push(AccountRef::readonly(self.payer, true));
        accounts.push(AccountRef::writable(a0, false));
        let data = pause_data(self.tags.set_global_pause, paused);
        let ix = ProgramIx { program_id: self.program_id, accounts, data };
        assert(ix.accounts_view() =~= seq![
            readonly(self.payer@, true),
            writable(self.config_address().unwrap(), false),
        ]);
        Some(ix)
    }

    /// `ProposeSetAttestationSigner`: the admin opens a signer-rotation proposal at the `proposal_id` timelock PDA.
    pub fn propose_set_attestation_signer_ix(&self, args: &[u8], proposal_id: u64) -> (r: Option<ProgramIx>)
        ensures
            r is Some <==> (self.config_address() is Some && self.timelock_address(proposal_id) is Some),
            r matches Some(ix) ==> {
                &&& ix.program_id == self.program_id
                &&& ix.data@ == framed_data(self.tags.propose_set_attestation_signer, args@)
                &&& ix.accounts_view() == seq![
                    writable(self.payer@, true),
                    readonly(self.config_address().unwrap(), false),
                    writable(self.timelock_address(proposal_id).unwrap(), false),
                    readonly(self.system_program@, false),
                ]
            },
    {
        let a0: [u8; 32] = match self.config_pda() {
            Some(k) => k,
            None => return None,
        };
        let a1: [u8; 32] = match self.timelock_pda(proposal_id) {
            Some(k) => k,
            None => return None,
        };
        let mut accounts: Vec<AccountRef> = Vec::new();
        accounts.push(AccountRef::writable(self.payer, true));
        accounts.push(AccountRef::readonly(a0, false));
        accounts.push(AccountRef::writable(a1, false));
        accounts.push(AccountRef::readonly(self.system_program, false));
        let data = instruction_data(self.tags.propose_set_attestation_signer, args);
        let ix = ProgramIx { program_id: self.program_id, accounts, data };
        assert(ix.accounts_view() =~= seq![
            writable(self.payer@, true),
            readonly(self.config_address().unwrap(), false),
            writable(self.timelock_address(proposal_id).unwrap(), false),
            readonly(self.system_program@, false),
        ]);
        Some(ix)
    }

    /// `ExecuteSetAttestationSigner`: execute a matured proposal.
    pub fn execute_set_attestation_signer_ix(&self, args: &[u8], proposal_id: u64) -> (r: Option<ProgramIx>)
        ensures
            r is Some <==> (self.config_address() is Some && self.timelock_address(proposal_id) is Some),
            r matches Some(ix) ==> {
                &&& ix.program_id == self.program_id
                &&& ix.data@ == framed_data(self.tags.execute_set_attestation_signer, args@)
                &&& ix.accounts_view() == seq![
                    readonly(self.payer@, true),
                    writable(self.config_address().unwrap(), false),
                    writable(self.timelock_address(proposal_id).unwrap(), false),
                ]
            },
    {
        let a0: [u8; 32] = match self.config_pda() {
            Some(k) => k,
            None => return None,
        };
        let a1: [u8; 32] = match self.timelock_pda(proposal_id) {
            Some(k) => k,
            None => return None,
        };
        let mut accounts: Vec<AccountRef> = Vec::new();
        accounts.push(AccountRef::readonly(self.payer, true));
        accounts.push(AccountRef::writable(a0, false));
        accounts.push(AccountRef::writable(a1, false));
        let data = instruction_data(self.tags.execute_set_attestation_signer, args);
        let ix = ProgramIx { program_id: self.program_id, accounts, data };
        assert(ix.accounts_view() =~= seq![
            readonly(self.payer@, true),
            writable(self.config_address().unwrap(), false),
            writable(self.timelock_address(proposal_id).unwrap(), false),
        ]);
        Some(ix)
    }

    /// `CancelTimelockProposal`: cancel a pending proposal.
    pub fn cancel_timelock_ix(&self, args: &[u8], proposal_id: u64) -> (r: Option<ProgramIx>)
        ensures
            r is Some <==> (self.timelock_address(proposal_id) is Some),
            r matches Some(ix) ==> {
                &&& ix.program_id == self.program_id
                &&& ix.data@ == framed_data(self.tags.cancel_timelock_proposal, args@)
                &&& ix.accounts_view() == seq![
                    readonly(self.payer@, true),
                    writable(self.timelock_address(proposal_id).unwrap(), false),
                ]
            },
    {
        let a0: [u8; 32] = match self.timelock_pda(proposal_id) {
            Some(k) => k,
            None => return None,
        };
        let mut accounts: Vec<AccountRef> = Vec::new();
        accounts.push(AccountRef::readonly(self.payer, true));
        accounts.push(AccountRef::writable(a0, false));
        let data = instruction_data(self.tags.cancel_timelock_proposal, args);
        let ix = ProgramIx { program_id: self.program_id, accounts, data };
        assert(ix.accounts_view() =~= seq![
            readonly(self.payer@, true),
            writable(self.timelock_address(proposal_id).unwrap(), false),
        ]);
        Some(ix)
    }

    /// `Novate`: transfer one side of a live PMLC from `current_owner` to `new_owner`; both sign.
    pub fn novate_ix(&self, args: &[u8], instrument: [u8; 32], pmlc: [u8; 32], mint: [u8; 32], current_owner: [u8; 32], new_owner: [u8; 32]) -> (r: Option<ProgramIx>)
        ensures
            r is Some <==> (self.config_address() is Some && self.margin_address(current_owner@, mint@) is Some && self.margin_address(new_owner@, mint@) is Some),
            r matches Some(ix) ==> {
                &&& ix.program_id == self.program_id
                &&& ix.data@ == framed_data(self.tags.novate, args@)
                &&& ix.accounts_view() == seq![
                    readonly(current_owner@, true),
                    readonly(new_owner@, true),
                    readonly(self.config_address().unwrap(), false),
                    readonly(instrument@, false),
                    writable(pmlc@, false),
                    writable(self.margin_address(current_owner@, mint@).unwrap(), false),
                    writable(self.margin_address(new_owner@, mint@).unwrap(), false),
                ]
            },
    {
        let a0: [u8; 32] = match self.config_pda() {
            Some(k) => k,
            None => return None,
        };
        let a1: [u8; 32] = match self.margin_pda(&current_owner, &mint) {
            Some(k) => k,
            None => return None,
        };
        let a2: [u8; 32] = match self.margin_pda(&new_owner, &mint) {
            Some(k) => k,
            None => return None,
        };
        let mut accounts: Vec<AccountRef> = Vec::new();
        accounts.push(AccountRef::readonly(current_owner, true));
        accounts.push(AccountRef::readonly(new_owner, true));
        accounts.push(AccountRef::readonly(a0, false));
        accounts.push(AccountRef::readonly(instrument, false));
        accounts.push(AccountRef::writable(pmlc, false));
        accounts.push(AccountRef::writable(a1, false));
        accounts.push(AccountRef::writable(a2, false));
        let data = instruction_data(self.tags.novate, args);
        let ix = ProgramIx { program_id: self.program_id, accounts, data };
        assert(ix.accounts_view() =~= seq![
            readonly(current_owner@, true),
            readonly(new_owner@, true),
            readonly(self.config_address().unwrap(), false),
            readonly(instrument@, false),
            writable(pmlc@, false),
            writable(self.margin_address(current_owner@, mint@).unwrap(), false),
            writable(self.margin_address(new_owner@, mint@).unwrap(), false),
        ]);
        Some(ix)
    }

    /// `MatchSubstituteWithSettle`: `substitutor` exits their PMLC side against a fresh intent pair and `counterparty` takes the side over.
    pub fn match_substitute_with_settle_ix(&self, args: &[u8], instrument: [u8; 32], book: [u8; 32], pmlc: [u8; 32], mint: [u8; 32], substitutor: [u8; 32], counterparty: [u8; 32]) -> (r: Option<ProgramIx>)
        ensures
            r is Some <==> (self.margin_address(substitutor@, mint@) is Some && self.margin_address(counterparty@, mint@) is Some),
            r matches Some(ix) ==> {
                &&& ix.program_id == self.program_id
                &&& ix.data@ == framed_data(self.tags.match_substitute_with_settle, args@)
                &&& ix.accounts_view() == seq![
                    readonly(substitutor@, true),
                    readonly(instrument@, false),
                    writable(book@, false),
                    writable(pmlc@, false),
                    writable(self.margin_address(substitutor@, mint@).unwrap(), false),
                    writable(self.margin_address(counterparty@, mint@).unwrap(), false),
                ]
            },
    {
        let a0: [u8; 32] = match self.margin_pda(&substitutor, &mint) {
            Some(k) => k,
            None => return None,
        };
        let a1: [u8; 32] = match self.margin_pda(&counterparty, &mint) {
            Some(k) => k,
            None => return None,
        };
        let mut accounts: Vec<AccountRef> = Vec::new();
        accounts.push(AccountRef::readonly(substitutor, true));
        accounts.push(AccountRef::readonly(instrument, false));
        accounts.push(AccountRef::writable(book, false));
        accounts.push(AccountRef::writable(pmlc, false));
        accounts.push(AccountRef::writable(a0, false));
        accounts.push(AccountRef::writable(a1, false));
        let data = instruction_data(self.tags.match_substitute_with_settle, args);
        let ix = ProgramIx { program_id: self.program_id, accounts, data };
        assert(ix.accounts_view() =~= seq![
            readonly(substitutor@, true),
            readonly(instrument@, false),
            writable(book@, false),
            writable(pmlc@, false),
            writable(self.margin_address(substitutor@, mint@).unwrap(), false),
            writable(self.margin_address(counterparty@, mint@).unwrap(), false),
        ]);
        Some(ix)
    }

    /// The bare `Liquidate` instruction (no attestation instruction); `keeper` signs and pays.
    pub fn liquidate_ix(&self, args: &[u8], instrument: [u8; 32], pmlc: [u8; 32], mint: [u8; 32], market_id: [u8; 32], keeper: [u8; 32], long_owner: [u8; 32], short_owner: [u8; 32]) -> (r: Option<ProgramIx>)
        ensures
            r is Some <==> (self.config_address() is Some && self.market_nonce_address(market_id@) is Some && self.margin_address(long_owner@, mint@) is Some && self.margin_address(short_owner@, mint@) is Some && self.margin_address(keeper@, mint@) is Some),
            r matches Some(ix) ==> {
                &&& ix.program_id == self.program_id
                &&& ix.data@ == framed_data(self.tags.liquidate, args@)
                &&& ix.accounts_view() == seq![
                    writable(keeper@, true),
                    readonly(self.config_address().unwrap(), false),
                    readonly(self.instructions_sysvar@, false),
                    readonly(instrument@, false),
                    writable(pmlc@, false),
                    writable(self.market_nonce_address(market_id@).unwrap(), false),
                    writable(self.margin_address(long_owner@, mint@).unwrap(), false),
                    writable(self.margin_address(short_owner@, mint@).unwrap(), false),
                    writable(self.margin_address(keeper@, mint@).unwrap(), false),
                ]
            },
    {
        let a0: [u8; 32] = match self.config_pda() {
            Some(k) => k,
            None => return None,
        };
        let a1: [u8; 32] = match self.market_nonce_pda(&market_id) {
            Some(k) => k,
            None => return None,
        };
        let a2: [u8; 32] = match self.margin_pda(&long_owner, &mint) {
            Some(k) => k,
            None => return None,
        };
        let a3: [u8; 32] = match self.margin_pda(&short_owner, &mint) {
            Some(k) => k,
            None => return None,
        };
        let a4: [u8; 32] = match self.margin_pda(&keeper, &mint) {
            Some(k) => k,
            None => return None,
        };
        let mut accounts: Vec<AccountRef> = Vec::new();
        accounts.push(AccountRef::writable(keeper, true));
        accounts.push(AccountRef::readonly(a0, false));
        accounts.push(AccountRef::readonly(self.instructions_sysvar, false));
        accounts.push(AccountRef::readonly(instrument, false));
        accounts.push(AccountRef::writable(pmlc, false));
        accounts.push(AccountRef::writable(a1, false));
        accounts.push(AccountRef::writable(a2, false));
        accounts.push(AccountRef::writable(a3, false));
        accounts.push(AccountRef::writable(a4, false));
        let data = instruction_data(self.tags.liquidate, args);
        let ix = ProgramIx { program_id: self.program_id, accounts, data };
        assert(ix.accounts_view() =~= seq![
            writable(keeper@, true),
            readonly(self.config_address().unwrap(), false),
            readonly(self.instructions_sysvar@, false),
            readonly(instrument@, false),
            writable(pmlc@, false),
            writable(self.market_nonce_address(market_id@).unwrap(), false),
            writable(self.margin_address(long_owner@, mint@).unwrap(), false),
            writable(self.margin_address(short_owner@, mint@).unwrap(), false),
            writable(self.margin_address(keeper@, mint@).unwrap(), false),
        ]);
        Some(ix)
    }

    /// The bare `Resolve` instruction (no attestation instruction); the payer signs.
    pub fn resolve_ix(&self, args: &[u8], instrument: [u8; 32], pmlc: [u8; 32], mint: [u8; 32], market_id: [u8; 32], long_owner: [u8; 32], short_owner: [u8; 32]) -> (r: Option<ProgramIx>)
        ensures
            r is Some <==> (self.config_address() is Some && self.market_nonce_address(market_id@) is Some && self.margin_address(long_owner@, mint@) is Some && self.margin_address(short_owner@, mint@) is Some),
            r matches Some(ix) ==> {
                &&& ix.program_id == self.program_id
                &&& ix.data@ == framed_data(self.tags.resolve, args@)
                &&& ix.accounts_view() == seq![
                    readonly(self.payer@, true),
                    readonly(self.config_address().unwrap(), false),
                    readonly(self.instructions_sysvar@, false),
                    readonly(instrument@, false),
                    writable(pmlc@, false),
                    writable(self.market_nonce_address(market_id@).unwrap(), false),
                    writable(self.margin_address(long_owner@, mint@).unwrap(), false),
                    writable(self.margin_address(short_owner@, mint@).unwrap(), false),
                ]
            },
    {
        let a0: [u8; 32] = match self.config_pda() {
            Some(k) => k,
            None => return None,
        };
        let a1: [u8; 32] = match self.market_nonce_pda(&market_id) {
            Some(k) => k,
            None => return None,
        };
        let a2: [u8; 32] = match self.margin_pda(&long_owner, &mint) {
            Some(k) => k,
            None => return None,
        };
        let a3: [u8; 32] = match self.margin_pda(&short_owner, &mint) {
            Some(k) => k,
            None => return None,
        };
        let mut accounts: Vec<AccountRef> = Vec::new();
        accounts.push(AccountRef::readonly(self.payer, true));
        accounts.push(AccountRef::readonly(a0, false));
        accounts.push(AccountRef::readonly(self.instructions_sysvar, false));
        accounts.push(AccountRef::readonly(instrument, false));
        accounts.push(AccountRef::writable(pmlc, false));
        accounts.push(AccountRef::writable(a1, false));
        accounts.push(AccountRef::writable(a2, false));
        accounts.push(AccountRef::writable(a3, false));
        let data = instruction_data(self.tags.resolve, args);
        let ix = ProgramIx { program_id: self.program_id, accounts, data };
        assert(ix.accounts_view() =~= seq![
            readonly(self.payer@, true),
            readonly(self.config_address().unwrap(), false),
            readonly(self.instructions_sysvar@, false),
            readonly(instrument@, false),
            writable(pmlc@, false),
            writable(self.market_nonce_address(market_id@).unwrap(), false),
            writable(self.margin_address(long_owner@, mint@).unwrap(), false),
            writable(self.margin_address(short_owner@, mint@).unwrap(), false),
        ]);
        Some(ix)
    }

    /// `ClosePmlc`: close a settled PMLC, refunding its rent to the payer (no payload).
    pub fn close_pmlc_ix(&self, pmlc: [u8; 32]) -> (ix: ProgramIx)
        ensures
            ix.program_id == self.program_id,
            ix.data@ == seq![self.tags.close_pmlc],
            ix.accounts_view() == seq![
                writable(self.payer@, true),
                writable(pmlc@, false),
            ],
    {
        let mut accounts: Vec<AccountRef> = Vec::new();
        accounts.push(AccountRef::writable(self.payer, true));
        accounts.push(AccountRef::writable(pmlc, false));
        let data = bare_instruction_data(self.tags.close_pmlc);
        let ix = ProgramIx { program_id: self.program_id, accounts, data };
        assert(ix.accounts_view() =~= seq![
            writable(self.payer@, true),
            writable(pmlc@, false),
        ]);
        ix
    }
}

/// An instrument's PDA is what `find_program_address` finds for the
/// instrument prefix followed by the caller's source byte, the market id
/// unchanged, and the little-endian leverage, collateral bucket and TWAP
/// window; its book's PDA is that of the book prefix and that address.
/// So parameter sets that differ in any of these (the source byte too)
/// are derived from different seed lists.
pub proof fn lemma_instrument_addresses(l: ProgramLayout, p: InstrumentParams)
    ensures
        l.instrument_address(p) == address_of(
            program_address(
                seq![
                    l.seeds.instrument@,
                    seq![p.source],
                    p.market_id@,
                    spec_u32_to_le_bytes(p.leverage_bps),
                    spec_u64_to_le_bytes(p.collateral_bucket),
                    spec_u64_to_le_bytes(p.twap_window_slots),
                ],
                l.program_id@,
            ),
        ),
        l.instrument_address(p) matches Some(instrument) ==> l.instrument_book_address(p)
            == address_of(program_address(seq![l.seeds.book@, instrument], l.program_id@)),
        l.instrument_address(p) is None ==> l.instrument_book_address(p) is None,
        l.market_nonce_address(p.market_id@) == address_of(
            program_address(seq![l.seeds.market_nonce@, p.market_id@], l.program_id@),
        ),
{
}

/// The vault addresses of a mint: the vault authority is what
/// `find_program_address` finds for the vault prefix and the mint's bytes
/// in order; the vault ATA is what the associated token account program
/// derives for that authority, the token program and the mint.
pub proof fn lemma_vault_addresses(l: ProgramLayout, mint: Seq<u8>)
    ensures
        l.vault_authority_address(mint) == address_of(
            program_address(seq![l.seeds.vault@, mint], l.program_id@),
        ),
        l.vault_authority_address(mint) matches Some(authority) ==> l.vault_ata_address(mint)
            == address_of(
            program_address(
                seq![authority, token_program_id_bytes(), mint],
                associated_token_program_id_bytes(),
            ),
        ),
        l.vault_authority_address(mint) is None ==> l.vault_ata_address(mint) is None,
{
}

/// The per-account addresses: each is what `find_program_address` finds
/// for the program's prefix followed by the given keys and values, in
/// order and unchanged (a proposal id as its little-endian bytes).
pub proof fn lemma_account_addresses(
    l: ProgramLayout,
    owner: Seq<u8>,
    mint: Seq<u8>,
    market_id: Seq<u8>,
    proposal_id: u64,
)
    ensures
        l.config_address() == address_of(program_address(seq![l.seeds.config@], l.program_id@)),
        l.fee_schedule_address() == address_of(
            program_address(seq![l.seeds.fee_schedule@], l.program_id@),
        ),
        l.margin_address(owner, mint) == address_of(
            program_address(seq![l.seeds.margin@, owner, mint], l.program_id@),
        ),
        l.market_nonce_address(market_id) == address_of(
            program_address(seq![l.seeds.market_nonce@, market_id], l.program_id@),
        ),
        l.user_volume_address(owner, mint) == address_of(
            program_address(seq![l.seeds.user_volume@, owner, mint], l.program_id@),
        ),
        l.fee_treasury_address(mint) == address_of(
            program_address(seq![l.seeds.treasury@, mint], l.program_id@),
        ),
        l.timelock_address(proposal_id) == address_of(
            program_address(
                seq![l.seeds.timelock@, spec_u64_to_le_bytes(proposal_id)],
                l.program_id@,
            ),
        ),
{
}

/// The `SetGlobalPause` payload: the tag, then one raw byte (1 = paused).
fn pause_data(tag: u8, paused: bool) -> (data: Vec<u8>)
    ensures
        data@ == seq![tag, if paused { 1u8 } else { 0u8 }],
{
    let mut data: Vec<u8> = Vec::new();
    data.push(tag);
    data.push(if paused { 1u8 } else { 0u8 });
    data
}

/// `now` clamped at zero: the timestamp an attestation carries for a
/// cluster time `now`.
pub open spec fn attestation_time(now: i64) -> u64 {
    if now < 0 {
        0
    } else {
        now as u64
    }
}

/// The attestation timestamp for cluster time `now` (`now.max(0)`).
pub fn attestation_timestamp(now: i64) -> (t: u64)
    ensures
        t == attestation_time(now),
{
    if now < 0 {
        0
    } else {
        now as u64
    }
}

/// The well-formed HISTORICAL_LIQUIDATION attestation `Liquidate` settles
/// against at cluster time `now`: stamped with `now` (clamped at zero),
/// bound to `pmlc`, breached at `breach_mark_fp` at time `now`.
pub fn liquidation_attestation(
    attestor: &Attestor,
    market_id: [u8; 32],
    now: i64,
    nonce: u64,
    pmlc: [u8; 32],
    breach_mark_fp: u64,
) -> (att: [u8; ATTESTATION_LEN])
    ensures
        att@ == attestation_bytes(
            attestor.wire_format().magic@,
            attestor.wire_format().historical_liquidation,
            market_id@,
            attestation_time(now),
            nonce,
            historical_liquidation_payload(pmlc@, breach_mark_fp, now),
        ),
{
    let timestamp = attestation_timestamp(now);
    attestor.historical_liquidation(market_id, timestamp, nonce, pmlc, breach_mark_fp, now)
}

/// The well-formed RESOLUTION attestation `Resolve` settles against at
/// cluster time `now`: stamped and resolved at `now` (clamped at zero).
pub fn resolution_attestation(
    attestor: &Attestor,
    market_id: [u8; 32],
    now: i64,
    nonce: u64,
    final_outcome_bps: u16,
) -> (att: [u8; ATTESTATION_LEN])
    ensures
        att@ == attestation_bytes(
            attestor.wire_format().magic@,
            attestor.wire_format().resolution,
            market_id@,
            attestation_time(now),
            nonce,
            resolution_payload(final_outcome_bps, attestation_time(now)),
        ),
{
    let timestamp = attestation_timestamp(now);
    attestor.resolution(market_id, timestamp, nonce, final_outcome_bps, timestamp)
}

} // verus!
