use bitcoin::consensus::encode::deserialize;
use bitcoin::sighash::SighashCache;
use bitcoin::{Script, Transaction};
use tx_chain::tx::{
    attach_signature, build_spend, key_lock, output_value, unsigned_draft, SpendError, FEE_SATS,
    SEQUENCE_FINAL, SIGHASH_ALL, TX_VERSION,
};

const PREV: &str = "4a5e1e4baab89f3a32518a88c31bc87f618f76673e2cc77ab2127b7afdeda33b";

fn secret_one() -> Vec<u8> {
    let mut s = vec![0u8; 32];
    s[31] = 1;
    s
}

// Public key of the secret 1 is the generator point; HASH160 of its compressed form.
const LOCK_OF_ONE: &str = "76a914751e76e8199196d454941c45d1b3a323f1433bd688ac";
const PUBKEY_OF_ONE: &str = "0279be667ef9dcbbac55a06295ce870b07029bfcdb2dce28d959f2815b16f81798";

#[test]
fn output_value_subtracts_fee() {
    assert_eq!(output_value(5_000_000_000, FEE_SATS), Ok(4_999_999_000));
    assert_eq!(output_value(1001, 1000), Ok(1));
}

#[test]
fn output_value_rejects_fee_not_below_value() {
    assert_eq!(output_value(1000, 1000), Err(SpendError::InsufficientFunds));
    assert_eq!(output_value(999, 1000), Err(SpendError::InsufficientFunds));
    assert_eq!(output_value(0, 0), Err(SpendError::InsufficientFunds));
}

#[test]
fn unsigned_draft_fields() {
    let d = unsigned_draft([7u8; 32], 3, 500, vec![0x51]);
    assert_eq!(d.version, 2);
    assert_eq!(d.prev_txid, [7u8; 32]);
    assert_eq!(d.prev_vout, 3);
    assert!(d.script_sig.is_empty());
    assert_eq!(d.sequence, 0xffff_ffff);
    assert_eq!(d.value, 500);
    assert_eq!(d.script_pubkey, vec![0x51]);
    assert_eq!(d.lock_time, 0);
}

#[test]
fn attach_signature_builds_two_pushes() {
    let d = unsigned_draft([7u8; 32], 0, 500, vec![0x51]);
    let signed = attach_signature(d, &vec![0x30, 0x01, 0x02], &vec![0x02, 0xaa]);
    assert_eq!(signed.script_sig, vec![4, 0x30, 0x01, 0x02, 0x01, 2, 0x02, 0xaa]);
    assert_eq!(signed.value, 500);
}

#[test]
fn spend_pays_value_less_fee_to_own_key() {
    let v: u64 = 5_000_000_000;
    let s = build_spend(PREV, 0, v, FEE_SATS, &secret_one()).unwrap();
    assert_eq!(s.draft.value, v - FEE_SATS);
    assert_eq!(s.draft.version, TX_VERSION);
    assert_eq!(s.draft.sequence, SEQUENCE_FINAL);
    assert_eq!(s.draft.lock_time, 0);
    assert_eq!(hex::encode(&s.draft.script_pubkey), LOCK_OF_ONE);
    let mut display = s.draft.prev_txid;
    display.reverse();
    assert_eq!(hex::encode(&display), PREV);
    assert!(s.hex.starts_with("0200000001"));
    assert!(s.hex.ends_with(&format!("19{}00000000", LOCK_OF_ONE)));
}

#[test]
fn spend_unlocking_script_ends_with_key() {
    let s = build_spend(PREV, 1, 20_000, 1000, &secret_one()).unwrap();
    let sig_len = s.draft.script_sig[0] as usize;
    assert_eq!(s.draft.script_sig[sig_len] as u32, SIGHASH_ALL);
    assert_eq!(s.draft.script_sig[sig_len + 1], 33);
    assert_eq!(hex::encode(&s.draft.script_sig[sig_len + 2..]), PUBKEY_OF_ONE);
    assert_eq!(s.draft.script_sig.len(), sig_len + 2 + 33);
}

#[test]
fn spend_signature_verifies() {
    let s = build_spend(PREV, 0, 20_000, 1000, &secret_one()).unwrap();
    let tx: Transaction = deserialize(&hex::decode(&s.hex).unwrap()).unwrap();
    let lock = s.draft.script_pubkey.clone();
    let h = SighashCache::new(&tx)
        .legacy_signature_hash(0, Script::from_bytes(&lock), SIGHASH_ALL)
        .unwrap();
    let msg = bitcoin::secp256k1::Message::from_digest(bitcoin::hashes::Hash::to_byte_array(h));
    let sig_len = s.draft.script_sig[0] as usize;
    let der = &s.draft.script_sig[1..sig_len];
    let sig = bitcoin::secp256k1::ecdsa::Signature::from_der(der).unwrap();
    let pk = bitcoin::secp256k1::PublicKey::from_slice(&s.draft.script_sig[sig_len + 2..]).unwrap();
    let secp = bitcoin::secp256k1::Secp256k1::new();
    assert!(secp.verify_ecdsa(&msg, &sig, &pk).is_ok());
    assert_eq!(tx.output[0].value.to_sat(), 19_000);
}

#[test]
fn spend_is_deterministic() {
    let a = build_spend(PREV, 0, 20_000, 1000, &secret_one()).unwrap();
    let b = build_spend(PREV, 0, 20_000, 1000, &secret_one()).unwrap();
    assert_eq!(a.hex, b.hex);
    assert_eq!(a.draft.script_pubkey, b.draft.script_pubkey);
}

#[test]
fn spend_rejects_fee_above_value_first() {
    assert!(matches!(build_spend("zz", 0, 1000, 1000, &secret_one()), Err(SpendError::InsufficientFunds)));
    assert!(matches!(build_spend(PREV, 0, 10, 1000, &secret_one()), Err(SpendError::InsufficientFunds)));
}

#[test]
fn spend_rejects_bad_txid_and_key() {
    assert!(matches!(build_spend("not a txid", 0, 20_000, 1000, &secret_one()), Err(SpendError::BadTxid)));
    assert!(matches!(build_spend(PREV, 0, 20_000, 1000, &vec![0u8; 32]), Err(SpendError::BadKey)));
    assert!(matches!(build_spend(PREV, 0, 20_000, 1000, &vec![1u8; 5]), Err(SpendError::BadKey)));
}

#[test]
fn key_lock_of_known_secret() {
    let a = key_lock(&secret_one()).unwrap();
    assert_eq!(hex::encode(&a), LOCK_OF_ONE);
    assert_eq!(key_lock(&secret_one()), Some(a));
    assert_eq!(key_lock(&vec![0u8; 32]), None);
}

#[test]
fn spend_accepts_upper_case_txid() {
    let upper = PREV.to_uppercase();
    let a = build_spend(&upper, 0, 20_000, 1000, &secret_one()).unwrap();
    let b = build_spend(PREV, 0, 20_000, 1000, &secret_one()).unwrap();
    assert_eq!(a.hex, b.hex);
}

#[test]
fn spend_rejects_short_or_non_hex_txid() {
    assert!(matches!(build_spend(&PREV[1..], 0, 20_000, 1000, &secret_one()), Err(SpendError::BadTxid)));
    let bad = format!("g{}", &PREV[1..]);
    assert!(matches!(build_spend(&bad, 0, 20_000, 1000, &secret_one()), Err(SpendError::BadTxid)));
    assert!(matches!(build_spend(PREV, 0, 20_000, 1000, &vec![0xffu8; 32]), Err(SpendError::BadKey)));
}

#[test]
fn spend_hex_is_legacy_layout() {
    let s = build_spend(PREV, 2, 20_000, 1000, &secret_one()).unwrap();
    let d = &s.draft;
    let expected = format!(
        "0200000001{}02000000{:02x}{}ffffffff01{}19{}00000000",
        hex::encode(d.prev_txid),
        d.script_sig.len(),
        hex::encode(&d.script_sig),
        hex::encode(19_000u64.to_le_bytes()),
        LOCK_OF_ONE,
    );
    assert_eq!(s.hex, expected);
}
