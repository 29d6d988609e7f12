//! Simulated CRE/TEE attestor.
//!
//! In production the program settles against attestations signed by a
//! TEE-held Ed25519 key. The attestor stands in for that TEE: an Ed25519
//! key frames and signs attestations in the program's fixed 104-byte
//! layout, and builds the `Ed25519SigVerify` precompile instruction that
//! the settlement handlers introspect.
//!
//! Attestation layout:
//!
//! ```text
//! 0..4     magic
//! 4        attestation type
//! 5..8     zero
//! 8..40    market id
//! 40..48   timestamp (u64 LE)
//! 48..56   nonce (u64 LE)
//! 56..104  type-specific payload (48 bytes)
//! ```

use vstd::prelude::*;
use crate::instruction::ProgramIx;
use crate::wire::{append_bytes, copy_into, le16, le64, u16_le, u64_le, zeros, lemma_le_lengths};
use vstd::bytes::{spec_u16_from_le_bytes, spec_u64_from_le_bytes};
use solana_sdk::ed25519_program;
use solana_sdk::pubkey::Pubkey;
use solana_sdk::signature::Keypair;
use solana_sdk::signer::Signer;

verus! {

/// Total length of an attestation.
pub const ATTESTATION_LEN: usize = 104;

/// Where the type-specific payload starts.
pub const ATTESTATION_PAYLOAD_OFFSET: usize = 56;

/// Length of the type-specific payload region.
pub const ATTESTATION_PAYLOAD_LEN: usize = 48;

/// The program's attestation constants: the 4-byte magic and the type
/// byte of each attestation kind. They are the program's own values and
/// are handed in by whoever builds the attestor.
#[derive(Clone, Copy, Debug)]
pub struct AttestationFormat {
    pub magic: [u8; 4],
    pub price_twap: u8,
    pub resolution: u8,
    pub historical_liquidation: u8,
}

/// The bytes of an attestation: magic, type byte, three zero bytes, the
/// market id, the timestamp and nonce in little-endian order, then the
/// first (at most 48) payload bytes, zero-padded to 48.
pub open spec fn attestation_bytes(
    magic: Seq<u8>,
    att_type: u8,
    market_id: Seq<u8>,
    timestamp: u64,
    nonce: u64,
    payload: Seq<u8>,
) -> Seq<u8> {
    let n: int = if payload.len() < 48 { payload.len() as int } else { 48 };
    magic + seq![att_type, 0u8, 0u8, 0u8] + market_id + le64(timestamp) + le64(nonce)
        + payload.take(n) + zeros((48 - n) as nat)
}

/// PRICE_TWAP payload: the price, then the TWAP window in slots.
pub open spec fn price_twap_payload(price_fp: u64, twap_window_slots: u64) -> Seq<u8> {
    le64(price_fp) + le64(twap_window_slots) + zeros(32)
}

/// RESOLUTION payload: the final outcome in basis points, then the
/// resolution time.
pub open spec fn resolution_payload(final_outcome_bps: u16, resolved_at_ts: u64) -> Seq<u8> {
    le16(final_outcome_bps) + le64(resolved_at_ts) + zeros(38)
}

/// HISTORICAL_LIQUIDATION payload: the PMLC it is bound to, the breach
/// mark, and the breach time (the two's-complement bytes of the `i64`).
pub open spec fn historical_liquidation_payload(
    pmlc: Seq<u8>,
    breach_mark_fp: u64,
    breach_unix_ts: i64,
) -> Seq<u8> {
    pmlc + le64(breach_mark_fp) + le64(breach_unix_ts as u64)
}

/// Frame the fixed header + market id + timestamp + nonce, then copy the
/// type-specific payload into the 48-byte payload region (bytes past 48
/// are dropped).
fn frame(
    magic: [u8; 4],
    att_type: u8,
    market_id: [u8; 32],
    timestamp: u64,
    nonce: u64,
    payload: &[u8],
) -> (b: [u8; ATTESTATION_LEN])
    ensures
        b@ == attestation_bytes(magic@, att_type, market_id@, timestamp, nonce, payload@),
{
    proof {
        lemma_le_lengths();
    }
    let mut b: [u8; ATTESTATION_LEN] = [0u8; ATTESTATION_LEN];
    let ghost z = b@;
    assert(forall|i: int| 0 <= i < 104 ==> z[i] == 0u8);
    copy_into(&mut b, 0, magic.as_slice(), 4);
    b[4] = att_type;
    copy_into(&mut b, 8, market_id.as_slice(), 32);
    let ts: Vec<u8> = u64_le(timestamp);
    copy_into(&mut b, 40, ts.as_slice(), 8);
    let nc: Vec<u8> = u64_le(nonce);
    copy_into(&mut b, 48, nc.as_slice(), 8);
    let n: usize = if payload.len() < ATTESTATION_PAYLOAD_LEN {
        payload.len()
    } else {
        ATTESTATION_PAYLOAD_LEN
    };
    copy_into(&mut b, ATTESTATION_PAYLOAD_OFFSET, payload, n);
    assert(b@ =~= attestation_bytes(magic@, att_type, market_id@, timestamp, nonce, payload@));
    b
}

/// Write `src` into a 48-byte payload region at offset `at`.
fn payload_with(p: &mut [u8; ATTESTATION_PAYLOAD_LEN], at: usize, src: &[u8])
    requires
        at + src@.len() <= 48,
    ensures
        final(p)@ == old(p)@.take(at as int) + src@ + old(p)@.skip(at + src@.len()),
{
    copy_into(p, at, src, src.len());
    assert(p@ =~= old(p)@.take(at as int) + src@ + old(p)@.skip(at + src@.len()));
}

#[verifier::external_type_specification]
#[verifier::external_body]
pub struct ExPubkey(Pubkey);

/// The Ed25519 public key of the 32-byte secret key `secret`: what
/// `Keypair::new_from_array(secret).pubkey()` returns, as bytes.
pub uninterp spec fn ed25519_public_key(secret: Seq<u8>) -> Seq<u8>;

/// The Ed25519 signature of `message` under the 32-byte secret key
/// `secret`: what `Keypair::new_from_array(secret).sign_message(message)`
/// returns, as bytes. Ed25519 signing is deterministic.
pub uninterp spec fn ed25519_signature(secret: Seq<u8>, message: Seq<u8>) -> Seq<u8>;

/// Calls `Keypair::new_from_array(secret).pubkey()`. Claimed: the result
/// is the named public key of `secret` (the keypair derives its public
/// key from the secret alone).
#[verifier::external_body]
fn derive_public_key(secret: &[u8; 32]) -> (public_key: [u8; 32])
    ensures
        public_key@ == ed25519_public_key(secret@),
{
    Keypair::new_from_array(*secret).pubkey().to_bytes()
}

/// Calls `Keypair::new_from_array(secret).sign_message(message)`. Claimed:
/// the 64 signature bytes are the named signature of `message` under
/// `secret`.
#[verifier::external_body]
fn sign_with_secret(secret: &[u8; 32], message: &[u8]) -> (signature: [u8; 64])
    ensures
        signature@ == ed25519_signature(secret@, message@),
{
    <[u8; 64]>::from(Keypair::new_from_array(*secret).sign_message(message))
}

/// Calls `Keypair::new()` and takes its secret key bytes. Nothing is
/// claimed of them: they come from the operating system's random source.
#[verifier::external_body]
fn fresh_secret_key() -> (secret: [u8; 32]) {
    *Keypair::new().secret_bytes()
}

/// The `Pubkey` that `Pubkey::new_from_array` builds from 32 bytes (the
/// source stores the bytes as they are).
pub uninterp spec fn pubkey_of_bytes(bytes: Seq<u8>) -> Pubkey;

/// Calls `Pubkey::new_from_array`. Claimed: the key is the named key of
/// the bytes, so equal bytes give equal keys. Nothing more is claimed of
/// the opaque `Pubkey`.
#[verifier::external_body]
fn pubkey_from_bytes(bytes: [u8; 32]) -> (key: Pubkey)
    ensures
        key == pubkey_of_bytes(bytes@),
{
    Pubkey::new_from_array(bytes)
}

/// The address of the Ed25519 signature-verification precompile,
/// `Ed25519SigVerify111111111111111111111111111` decoded from base58.
pub open spec fn ed25519_program_id_bytes() -> Seq<u8> {
    seq![
        3u8, 125, 70, 214, 124, 147, 251, 190, 18, 249, 66, 143, 131, 141, 64, 255,
        5, 112, 116, 73, 39, 244, 138, 100, 252, 202, 112, 68, 128, 0, 0, 0,
    ]
}

/// Reads `ed25519_program::ID`. Claimed: its bytes are the base58
/// decoding of the id that `declare_id!` gives it in `solana-sdk-ids`.
#[verifier::external_body]
fn ed25519_program_id() -> (id: [u8; 32])
    ensures
        id@ == ed25519_program_id_bytes(),
{
    ed25519_program::ID.to_bytes()
}

/// Offset of the signature in the precompile instruction data.
pub const PRECOMPILE_SIGNATURE_OFFSET: u16 = 16;

/// Offset of the public key in the precompile instruction data.
pub const PRECOMPILE_PUBKEY_OFFSET: u16 = 80;

/// Offset of the message in the precompile instruction data.
pub const PRECOMPILE_MESSAGE_OFFSET: u16 = 112;

/// Instruction-index value meaning "this instruction".
pub const THIS_INSTRUCTION: u16 = 0xffff;

/// The `Ed25519SigVerify` instruction data for one signature: the count
/// (1) and a padding byte, then the signature offset, its instruction
/// index, the public-key offset, its instruction index, the message
/// offset, the message length (truncated to 16 bits) and its instruction
/// index, every index being `u16::MAX`; then the signature, the public
/// key and the message.
pub open spec fn precompile_data(signature: Seq<u8>, pubkey: Seq<u8>, message: Seq<u8>) -> Seq<u8> {
    seq![1u8, 0u8] + le16(16) + le16(0xffff) + le16(80) + le16(0xffff) + le16(112) + le16(
        message.len() as u16,
    ) + le16(0xffff) + signature + pubkey + message
}

/// Build the `Ed25519SigVerify` precompile data over `message` from a
/// signature and the signer's public key. All three instruction-index
/// fields are `u16::MAX` ("this instruction"): the program rejects any
/// other value, since a cross-instruction index would let the precompile
/// verify bytes the program never sees.
pub fn ed25519_verify_data(signature: &[u8; 64], pubkey: &[u8; 32], message: &[u8]) -> (data: Vec<
    u8,
>)
    ensures
        data@ == precompile_data(signature@, pubkey@, message@),
{
    let mut data: Vec<u8> = Vec::new();
    data.push(1u8);
    data.push(0u8);
    append_bytes(&mut data, u16_le(PRECOMPILE_SIGNATURE_OFFSET).as_slice());
    append_bytes(&mut data, u16_le(THIS_INSTRUCTION).as_slice());
    append_bytes(&mut data, u16_le(PRECOMPILE_PUBKEY_OFFSET).as_slice());
    append_bytes(&mut data, u16_le(THIS_INSTRUCTION).as_slice());
    append_bytes(&mut data, u16_le(PRECOMPILE_MESSAGE_OFFSET).as_slice());
    append_bytes(&mut data, u16_le(message.len() as u16).as_slice());
    append_bytes(&mut data, u16_le(THIS_INSTRUCTION).as_slice());
    append_bytes(&mut data, signature.as_slice());
    append_bytes(&mut data, pubkey.as_slice());
    append_bytes(&mut data, message);
    assert(data@ =~= precompile_data(signature@, pubkey@, message@));
    data
}

/// Local Ed25519 attestor key + attestation builders.
pub struct Attestor {
    secret: [u8; 32],
    format: AttestationFormat,
}

impl Attestor {
    /// The attestor's 32-byte Ed25519 secret key.
    pub closed spec fn secret_key(&self) -> Seq<u8> {
        self.secret@
    }

    /// The attestation constants the attestor frames with.
    pub closed spec fn wire_format(&self) -> AttestationFormat {
        self.format
    }

    /// The attestation constants the attestor frames with.
    pub fn format(&self) -> (f: AttestationFormat)
        ensures
            f == self.wire_format(),
    {
        self.format
    }

    /// An attestor with a fresh random key, framing attestations in
    /// `format`.
    pub fn new(format: AttestationFormat) -> (a: Attestor)
        ensures
            a.wire_format() == format,
            a.secret_key().len() == 32,
    {
        Attestor { secret: fresh_secret_key(), format }
    }

    /// An attestor signing with the keypair whose 32-byte secret key is
    /// `keypair_secret` (`Keypair::secret_bytes`), framing attestations in
    /// `format`.
    pub fn from_keypair(keypair_secret: [u8; 32], format: AttestationFormat) -> (a: Attestor)
        ensures
            a.wire_format() == format,
            a.secret_key() == keypair_secret@,
    {
        Attestor { secret: keypair_secret, format }
    }

    /// The 32-byte value to register as the program's attestation signer:
    /// the attestor's Ed25519 public key.
    pub fn signer_bytes(&self) -> (b: [u8; 32])
        ensures
            b@ == ed25519_public_key(self.secret_key()),
    {
        derive_public_key(&self.secret)
    }

    /// The attestor's public key as a `Pubkey`: the key built from
    /// `signer_bytes`.
    pub fn pubkey(&self) -> (k: Pubkey)
        ensures
            k == pubkey_of_bytes(ed25519_public_key(self.secret_key())),
    {
        pubkey_from_bytes(self.signer_bytes())
    }

    /// PRICE_TWAP attestation: `price_fp` + `twap_window_slots`.
    pub fn price_twap(
        &self,
        market_id: [u8; 32],
        timestamp: u64,
        nonce: u64,
        price_fp: u64,
        twap_window_slots: u64,
    ) -> (att: [u8; ATTESTATION_LEN])
        ensures
            att@ == attestation_bytes(
                self.wire_format().magic@,
                self.wire_format().price_twap,
                market_id@,
                timestamp,
                nonce,
                price_twap_payload(price_fp, twap_window_slots),
            ),
    {
        proof {
            lemma_le_lengths();
        }
        let mut p: [u8; ATTESTATION_PAYLOAD_LEN] = [0u8; ATTESTATION_PAYLOAD_LEN];
        let ghost z = p@;
        assert(z =~= zeros(48));
        payload_with(&mut p, 0, u64_le(price_fp).as_slice());
        payload_with(&mut p, 8, u64_le(twap_window_slots).as_slice());
        assert(p@ =~= price_twap_payload(price_fp, twap_window_slots));
        Self::frame_with(self.format.magic, self.format.price_twap, market_id, timestamp, nonce, &p)
    }

    /// RESOLUTION attestation: `final_outcome_bps` (0 / 5000 / 10000) and
    /// the resolution time.
    pub fn resolution(
        &self,
        market_id: [u8; 32],
        timestamp: u64,
        nonce: u64,
        final_outcome_bps: u16,
        resolved_at_ts: u64,
    ) -> (att: [u8; ATTESTATION_LEN])
        ensures
            att@ == attestation_bytes(
                self.wire_format().magic@,
                self.wire_format().resolution,
                market_id@,
                timestamp,
                nonce,
                resolution_payload(final_outcome_bps, resolved_at_ts),
            ),
    {
        proof {
            lemma_le_lengths();
        }
        let mut p: [u8; ATTESTATION_PAYLOAD_LEN] = [0u8; ATTESTATION_PAYLOAD_LEN];
        let ghost z = p@;
        assert(z =~= zeros(48));
        payload_with(&mut p, 0, u16_le(final_outcome_bps).as_slice());
        payload_with(&mut p, 2, u64_le(resolved_at_ts).as_slice());
        assert(p@ =~= resolution_payload(final_outcome_bps, resolved_at_ts));
        Self::frame_with(self.format.magic, self.format.resolution, market_id, timestamp, nonce, &p)
    }

    /// HISTORICAL_LIQUIDATION attestation bound to a specific PMLC.
    pub fn historical_liquidation(
        &self,
        market_id: [u8; 32],
        timestamp: u64,
        nonce: u64,
        pmlc: [u8; 32],
        breach_mark_fp: u64,
        breach_unix_ts: i64,
    ) -> (att: [u8; ATTESTATION_LEN])
        ensures
            att@ == attestation_bytes(
                self.wire_format().magic@,
                self.wire_format().historical_liquidation,
                market_id@,
                timestamp,
                nonce,
                historical_liquidation_payload(pmlc@, breach_mark_fp, breach_unix_ts),
            ),
    {
        proof {
            lemma_le_lengths();
        }
        let mut p: [u8; ATTESTATION_PAYLOAD_LEN] = [0u8; ATTESTATION_PAYLOAD_LEN];
        payload_with(&mut p, 0, pmlc.as_slice());
        payload_with(&mut p, 32, u64_le(breach_mark_fp).as_slice());
        payload_with(&mut p, 40, u64_le(breach_unix_ts as u64).as_slice());
        assert(p@ =~= historical_liquidation_payload(pmlc@, breach_mark_fp, breach_unix_ts));
        Self::frame_with(
            self.format.magic,
            self.format.historical_liquidation,
            market_id,
            timestamp,
            nonce,
            &p,
        )
    }

    fn frame_with(
        magic: [u8; 4],
        att_type: u8,
        market_id: [u8; 32],
        timestamp: u64,
        nonce: u64,
        payload: &[u8; ATTESTATION_PAYLOAD_LEN],
    ) -> (b: [u8; ATTESTATION_LEN])
        ensures
            b@ == attestation_bytes(magic@, att_type, market_id@, timestamp, nonce, payload@),
    {
        frame(magic, att_type, market_id, timestamp, nonce, payload.as_slice())
    }

    /// Build the `Ed25519SigVerify` precompile instruction that the
    /// program introspects: the attestor signs `attestation` and the
    /// instruction carries the signature, the attestor's public key and
    /// the attestation. The key it carries is the one `signer_bytes`
    /// returns, and the message is the attestation unchanged. The
    /// settlement instruction must be placed
    /// immediately after this one in the same transaction.
    pub fn ed25519_verify_ix(&self, attestation: &[u8]) -> (ix: ProgramIx)
        ensures
            ix.program_id@ == ed25519_program_id_bytes(),
            ix.accounts@ == Seq::<crate::instruction::AccountRef>::empty(),
            ix.data@ == precompile_data(
                ed25519_signature(self.secret_key(), attestation@),
                ed25519_public_key(self.secret_key()),
                attestation@,
            ),
            ix.data@.len() == 112 + attestation@.len(),
            ix.data@.subrange(16, 80) == ed25519_signature(self.secret_key(), attestation@),
            ix.data@.subrange(80, 112) == ed25519_public_key(self.secret_key()),
            ix.data@.subrange(112, ix.data@.len() as int) == attestation@,
    {
        proof {
            lemma_le_lengths();
        }
        let signature: [u8; 64] = sign_with_secret(&self.secret, attestation);
        let pubkey: [u8; 32] = derive_public_key(&self.secret);
        let data = ed25519_verify_data(&signature, &pubkey, attestation);
        assert(data@.subrange(16, 80) =~= signature@);
        assert(data@.subrange(80, 112) =~= pubkey@);
        assert(data@.subrange(112, data@.len() as int) =~= attestation@);
        ProgramIx { program_id: ed25519_program_id(), accounts: Vec::new(), data }
    }
}

/// Every field of an attestation reads back from its place in the
/// 104-byte layout: the magic from bytes 0..4, the type from byte 4, the
/// market id from 8..40, the timestamp and nonce (little-endian) from
/// 40..48 and 48..56, and a full 48-byte payload from 56..104.
pub proof fn lemma_attestation_read_back(
    magic: Seq<u8>,
    att_type: u8,
    market_id: Seq<u8>,
    timestamp: u64,
    nonce: u64,
    payload: Seq<u8>,
)
    requires
        magic.len() == 4,
        market_id.len() == 32,
        payload.len() == 48,
    ensures
        ({
            let a = attestation_bytes(magic, att_type, market_id, timestamp, nonce, payload);
            &&& a.len() == 104
            &&& a.subrange(0, 4) == magic
            &&& a[4] == att_type
            &&& a.subrange(5, 8) == zeros(3)
            &&& a.subrange(8, 40) == market_id
            &&& spec_u64_from_le_bytes(a.subrange(40, 48)) == timestamp
            &&& spec_u64_from_le_bytes(a.subrange(48, 56)) == nonce
            &&& a.subrange(56, 104) == payload
        }),
{
    lemma_le_lengths();
    vstd::bytes::lemma_auto_spec_u64_to_from_le_bytes();
    let a = attestation_bytes(magic, att_type, market_id, timestamp, nonce, payload);
    assert(payload.take(48) =~= payload);
    assert(a.subrange(0, 4) =~= magic);
    assert(a.subrange(5, 8) =~= zeros(3));
    assert(a.subrange(8, 40) =~= market_id);
    assert(a.subrange(40, 48) =~= le64(timestamp));
    assert(a.subrange(48, 56) =~= le64(nonce));
    assert(a.subrange(56, 104) =~= payload);
}

/// The PRICE_TWAP payload reads back: the price from bytes 0..8 and the
/// TWAP window from 8..16, the rest zero.
pub proof fn lemma_price_twap_read_back(price_fp: u64, twap_window_slots: u64)
    ensures
        ({
            let p = price_twap_payload(price_fp, twap_window_slots);
            &&& p.len() == 48
            &&& spec_u64_from_le_bytes(p.subrange(0, 8)) == price_fp
            &&& spec_u64_from_le_bytes(p.subrange(8, 16)) == twap_window_slots
            &&& p.subrange(16, 48) == zeros(32)
        }),
{
    lemma_le_lengths();
    vstd::bytes::lemma_auto_spec_u64_to_from_le_bytes();
    let p = price_twap_payload(price_fp, twap_window_slots);
    assert(p.subrange(0, 8) =~= le64(price_fp));
    assert(p.subrange(8, 16) =~= le64(twap_window_slots));
    assert(p.subrange(16, 48) =~= zeros(32));
}

/// The RESOLUTION payload reads back: the outcome from bytes 0..2 and the
/// resolution time from 2..10, the rest zero.
pub proof fn lemma_resolution_read_back(final_outcome_bps: u16, resolved_at_ts: u64)
    ensures
        ({
            let p = resolution_payload(final_outcome_bps, resolved_at_ts);
            &&& p.len() == 48
            &&& spec_u16_from_le_bytes(p.subrange(0, 2)) == final_outcome_bps
            &&& spec_u64_from_le_bytes(p.subrange(2, 10)) == resolved_at_ts
            &&& p.subrange(10, 48) == zeros(38)
        }),
{
    lemma_le_lengths();
    vstd::bytes::lemma_auto_spec_u16_to_from_le_bytes();
    vstd::bytes::lemma_auto_spec_u64_to_from_le_bytes();
    let p = resolution_payload(final_outcome_bps, resolved_at_ts);
    assert(p.subrange(0, 2) =~= le16(final_outcome_bps));
    assert(p.subrange(2, 10) =~= le64(resolved_at_ts));
    assert(p.subrange(10, 48) =~= zeros(38));
}

/// The HISTORICAL_LIQUIDATION payload reads back: the bound PMLC from
/// bytes 0..32, the breach mark from 32..40 and the breach time (as an
/// `i64`) from 40..48.
pub proof fn lemma_historical_liquidation_read_back(
    pmlc: Seq<u8>,
    breach_mark_fp: u64,
    breach_unix_ts: i64,
)
    requires
        pmlc.len() == 32,
    ensures
        ({
            let p = historical_liquidation_payload(pmlc, breach_mark_fp, breach_unix_ts);
            &&& p.len() == 48
            &&& p.subrange(0, 32) == pmlc
            &&& spec_u64_from_le_bytes(p.subrange(32, 40)) == breach_mark_fp
            &&& spec_u64_from_le_bytes(p.subrange(40, 48)) as i64 == breach_unix_ts
        }),
{
    lemma_le_lengths();
    vstd::bytes::lemma_auto_spec_u64_to_from_le_bytes();
    let p = historical_liquidation_payload(pmlc, breach_mark_fp, breach_unix_ts);
    assert(p.subrange(0, 32) =~= pmlc);
    assert(p.subrange(32, 40) =~= le64(breach_mark_fp));
    assert(p.subrange(40, 48) =~= le64(breach_unix_ts as u64));
    let t: i64 = breach_unix_ts;
    assert((t as u64) as i64 == t) by (bit_vector);
}

/// The precompile header locates its parts: the offsets recorded in it
/// point at the signature, the public key and the message inside the
/// instruction data, the recorded length is the message's length, and
/// every instruction index is `u16::MAX` (this instruction).
pub proof fn lemma_precompile_offsets_locate_parts(
    signature: Seq<u8>,
    pubkey: Seq<u8>,
    message: Seq<u8>,
)
    requires
        signature.len() == 64,
        pubkey.len() == 32,
        message.len() <= u16::MAX,
    ensures
        ({
            let d = precompile_data(signature, pubkey, message);
            let sig_off = spec_u16_from_le_bytes(d.subrange(2, 4)) as int;
            let pk_off = spec_u16_from_le_bytes(d.subrange(6, 8)) as int;
            let msg_off = spec_u16_from_le_bytes(d.subrange(10, 12)) as int;
            let msg_len = spec_u16_from_le_bytes(d.subrange(12, 14)) as int;
            &&& d[0] == 1
            &&& spec_u16_from_le_bytes(d.subrange(4, 6)) == u16::MAX
            &&& spec_u16_from_le_bytes(d.subrange(8, 10)) == u16::MAX
            &&& spec_u16_from_le_bytes(d.subrange(14, 16)) == u16::MAX
            &&& d.len() == msg_off + msg_len
            &&& d.subrange(sig_off, sig_off + 64) == signature
            &&& d.subrange(pk_off, pk_off + 32) == pubkey
            &&& d.subrange(msg_off, msg_off + msg_len) == message
        }),
{
    lemma_le_lengths();
    vstd::bytes::lemma_auto_spec_u16_to_from_le_bytes();
    let d = precompile_data(signature, pubkey, message);
    let len16: u16 = message.len() as u16;
    assert(len16 == message.len());
    assert(d.subrange(2, 4) =~= le16(16));
    assert(d.subrange(4, 6) =~= le16(0xffff));
    assert(d.subrange(6, 8) =~= le16(80));
    assert(d.subrange(8, 10) =~= le16(0xffff));
    assert(d.subrange(10, 12) =~= le16(112));
    assert(d.subrange(12, 14) =~= le16(len16));
    assert(d.subrange(14, 16) =~= le16(0xffff));
    assert(d.subrange(16, 80) =~= signature);
    assert(d.subrange(80, 112) =~= pubkey);
    assert(d.subrange(112, 112 + message.len() as int) =~= message);
}

} // verus!
