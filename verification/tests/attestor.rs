use polyleverage_sim::attestor::{
    ed25519_verify_data, ATTESTATION_LEN, ATTESTATION_PAYLOAD_OFFSET,
};
use polyleverage_sim::{AttestationFormat, Attestor};
use solana_sdk::signature::{Keypair, Signature, Signer};

fn format() -> AttestationFormat {
    AttestationFormat {
        magic: *b"PLVA",
        price_twap: 1,
        resolution: 2,
        historical_liquidation: 3,
    }
}

fn le16(b: &[u8], at: usize) -> u16 {
    u16::from_le_bytes([b[at], b[at + 1]])
}

fn le64(b: &[u8], at: usize) -> u64 {
    let mut a = [0u8; 8];
    a.copy_from_slice(&b[at..at + 8]);
    u64::from_le_bytes(a)
}

#[test]
fn price_twap_layout() {
    let a = Attestor::new(format());
    let att = a.price_twap([9u8; 32], 1_700_000_000, 7, 50, 100);
    assert_eq!(att.len(), ATTESTATION_LEN);
    assert_eq!(&att[0..4], b"PLVA");
    assert_eq!(att[4], 1);
    assert_eq!(&att[5..8], &[0u8, 0, 0]);
    assert_eq!(&att[8..40], &[9u8; 32]);
    assert_eq!(le64(&att, 40), 1_700_000_000);
    assert_eq!(le64(&att, 48), 7);
    assert_eq!(le64(&att, ATTESTATION_PAYLOAD_OFFSET), 50);
    assert_eq!(le64(&att, 64), 100);
    assert!(att[72..].iter().all(|b| *b == 0));
}

#[test]
fn resolution_layout() {
    let a = Attestor::new(format());
    let att = a.resolution([1u8; 32], 5, 6, 10_000, 1_234);
    assert_eq!(att[4], 2);
    assert_eq!(le64(&att, 40), 5);
    assert_eq!(le64(&att, 48), 6);
    assert_eq!(le16(&att, 56), 10_000);
    assert_eq!(le64(&att, 58), 1_234);
    assert!(att[66..].iter().all(|b| *b == 0));
}

#[test]
fn historical_liquidation_layout_with_negative_time() {
    let a = Attestor::new(format());
    let att = a.historical_liquidation([0xCDu8; 32], 0, 5, [4u8; 32], 25, -2);
    assert_eq!(att[4], 3);
    assert_eq!(&att[8..40], &[0xCDu8; 32]);
    assert_eq!(&att[56..88], &[4u8; 32]);
    assert_eq!(le64(&att, 88), 25);
    assert_eq!(&att[96..104], &(-2i64).to_le_bytes());
}

#[test]
fn signer_bytes_is_the_keypair_public_key() {
    let kp = Keypair::new();
    let expected = kp.pubkey();
    let secret = *kp.secret_bytes();
    let a = Attestor::from_keypair(secret, format());
    assert_eq!(a.signer_bytes(), expected.to_bytes());
    assert_ne!(a.signer_bytes(), secret);
    assert_eq!(a.pubkey(), expected);
}

#[test]
fn distinct_attestors_have_distinct_keys() {
    let a = Attestor::new(format());
    let b = Attestor::new(format());
    assert_ne!(a.signer_bytes(), b.signer_bytes());
}

#[test]
fn ed25519_verify_ix_signs_and_lays_out_the_precompile() {
    let a = Attestor::new(format());
    let att = a.resolution([3u8; 32], 11, 12, 5_000, 11);
    let ix = a.ed25519_verify_ix(&att);
    assert_eq!(ix.program_id, solana_sdk::ed25519_program::ID.to_bytes());
    assert!(ix.accounts.is_empty());
    let d = &ix.data;
    assert_eq!(d.len(), 112 + ATTESTATION_LEN);
    assert_eq!(d[0], 1);
    assert_eq!(d[1], 0);
    assert_eq!(le16(d, 2), 16);
    assert_eq!(le16(d, 4), u16::MAX);
    assert_eq!(le16(d, 6), 80);
    assert_eq!(le16(d, 8), u16::MAX);
    assert_eq!(le16(d, 10), 112);
    assert_eq!(le16(d, 12), ATTESTATION_LEN as u16);
    assert_eq!(le16(d, 14), u16::MAX);
    assert_eq!(&d[80..112], &a.signer_bytes());
    assert_eq!(&d[112..], &att[..]);
    let mut sig = [0u8; 64];
    sig.copy_from_slice(&d[16..80]);
    assert!(Signature::from(sig).verify(&a.signer_bytes(), &att));
    assert!(!Signature::from(sig).verify(&a.signer_bytes(), &att[1..]));
}

#[test]
fn ed25519_signature_is_deterministic() {
    let kp = Keypair::new();
    let bytes = kp.to_bytes();
    let a = Attestor::from_keypair(*kp.secret_bytes(), format());
    let b = Attestor::from_keypair(*Keypair::try_from(&bytes[..]).unwrap().secret_bytes(), format());
    let msg = [5u8; 104];
    assert_eq!(a.ed25519_verify_ix(&msg).data, b.ed25519_verify_ix(&msg).data);
}

#[test]
fn ed25519_verify_data_concrete_layout() {
    let sig = [0xAAu8; 64];
    let pk = [0xBBu8; 32];
    let msg = [1u8, 2, 3];
    let d = ed25519_verify_data(&sig, &pk, &msg);
    let mut expected = vec![1u8, 0, 16, 0, 0xff, 0xff, 80, 0, 0xff, 0xff, 112, 0, 3, 0, 0xff, 0xff];
    expected.extend_from_slice(&sig);
    expected.extend_from_slice(&pk);
    expected.extend_from_slice(&msg);
    assert_eq!(d, expected);
}

#[test]
fn ed25519_verify_data_truncates_long_message_length() {
    let msg = vec![0u8; 70_000];
    let d = ed25519_verify_data(&[0u8; 64], &[0u8; 32], &msg);
    assert_eq!(d.len(), 112 + 70_000);
    assert_eq!(le16(&d, 12), (70_000u32 % 65_536) as u16);
}

#[test]
fn format_is_kept() {
    let a = Attestor::new(format());
    assert_eq!(a.format().magic, *b"PLVA");
    assert_eq!(a.format().historical_liquidation, 3);
}
