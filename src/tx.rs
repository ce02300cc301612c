//! One-input, one-output legacy spends: drafting, signing and encoding.
use vstd::prelude::*;

use crate::primitives::{
    compressed_pubkey_of, ecdsa_der_of, encode_draft, hash160_of, hex_encode, hex_text,
    is_secret_key, is_txid_text, legacy_sighash, legacy_sighash_of, p2pkh_lock, p2pkh_script,
    parse_txid, public_key_of, push_data, sign_der, two_push_script, tx_encoding_of,
    txid_bytes_of,
};

verus! {

/// The flat fee, in satoshis, that each spend leaves to the miner.
pub const FEE_SATS: u64 = 1000;

/// Transaction version written into every draft.
pub const TX_VERSION: i32 = 2;

/// Input sequence number with no relative time-lock.
pub const SEQUENCE_FINAL: u32 = 0xffff_ffff;

/// Signature-hash type "ALL": the signature covers every input and output.
pub const SIGHASH_ALL: u32 = 1;

/// Why a spend could not be built.
#[derive(Debug, Clone, Copy, PartialEq, Eq, Structural)]
pub enum SpendError {
    /// The fee is not strictly less than the value of the spent output.
    InsufficientFunds,
    /// The previous transaction id is not 64 hex digits.
    BadTxid,
    /// The secret is not a valid secp256k1 scalar.
    BadKey,
}

/// A transaction with one input and one output, in plain values.
#[derive(Debug, Clone)]
pub struct Draft {
    pub version: i32,
    /// Id of the spent transaction, in internal byte order (32 bytes).
    pub prev_txid: [u8; 32],
    pub prev_vout: u32,
    /// Unlocking script of the input; empty until signed.
    pub script_sig: Vec<u8>,
    pub sequence: u32,
    /// Value of the output, in satoshis.
    pub value: u64,
    /// Locking script of the output.
    pub script_pubkey: Vec<u8>,
    pub lock_time: u32,
}

impl Draft {
    /// The consensus encoding of the draft.
    pub open spec fn encoding(self) -> Seq<u8> {
        tx_encoding_of(self.version, self.prev_txid@, self.prev_vout, self.script_sig@,
            self.sequence, self.value, self.script_pubkey@, self.lock_time)
    }

    /// Spends `prev_vout` of `prev_txid`, paying `value` to `lock`, with an empty
    /// unlocking script, version 2, no relative and no absolute time-lock.
    pub open spec fn is_unsigned_spend(self, prev_txid: Seq<u8>, prev_vout: u32, value: u64, lock: Seq<u8>) -> bool {
        &&& self.version == TX_VERSION
        &&& self.prev_txid@ == prev_txid
        &&& self.prev_vout == prev_vout
        &&& self.script_sig@.len() == 0
        &&& self.sequence == SEQUENCE_FINAL
        &&& self.value == value
        &&& self.script_pubkey@ == lock
        &&& self.lock_time == 0
    }
}

/// A signed spend and the hex of its encoding, ready to broadcast.
#[derive(Debug, Clone)]
pub struct Spend {
    pub draft: Draft,
    pub hex: String,
}

/// The value left for the output once the fee is paid.
pub fn output_value(value: u64, fee: u64) -> (r: Result<u64, SpendError>)
    ensures
        fee < value ==> r == Ok::<u64, SpendError>((value - fee) as u64),
        fee >= value ==> r == Err::<u64, SpendError>(SpendError::InsufficientFunds),
{
    if fee < value {
        Ok(value - fee)
    } else {
        Err(SpendError::InsufficientFunds)
    }
}

/// The unsigned draft that spends `prev_vout` of `prev_txid` and pays `value` to `lock`.
pub fn unsigned_draft(prev_txid: [u8; 32], prev_vout: u32, value: u64, lock: Vec<u8>) -> (d: Draft)
    ensures
        d.is_unsigned_spend(prev_txid@, prev_vout, value, lock@),
{
    Draft {
        version: TX_VERSION,
        prev_txid,
        prev_vout,
        script_sig: Vec::new(),
        sequence: SEQUENCE_FINAL,
        value,
        script_pubkey: lock,
        lock_time: 0,
    }
}

/// The unlocking script of a key-hash spend: a push of the DER signature with the
/// "ALL" type byte appended, then a push of the public key.
pub open spec fn unlocking_script(der: Seq<u8>, pubkey: Seq<u8>) -> Seq<u8> {
    push_data(der.push(SIGHASH_ALL as u8)) + push_data(pubkey)
}

/// `d` with its unlocking script made of the signature `der` and the key `pubkey`.
pub fn attach_signature(d: Draft, der: &Vec<u8>, pubkey: &Vec<u8>) -> (r: Draft)
    requires
        der@.len() <= 72,
        pubkey@.len() <= 75,
    ensures
        r.script_sig@ == unlocking_script(der@, pubkey@),
        r.version == d.version,
        r.prev_txid@ == d.prev_txid@,
        r.prev_vout == d.prev_vout,
        r.sequence == d.sequence,
        r.value == d.value,
        r.script_pubkey@ == d.script_pubkey@,
        r.lock_time == d.lock_time,
{
    let mut sig = der.clone();
    sig.push(SIGHASH_ALL as u8);
    let script_sig = two_push_script(&sig, pubkey);
    Draft { script_sig, ..d }
}

/// The key-hash locking script of the key that `secret` gives.
pub open spec fn lock_of_secret(secret: Seq<u8>) -> Seq<u8> {
    p2pkh_lock(hash160_of(compressed_pubkey_of(secret)))
}

/// What [`key_lock`] returns for `secret`: the key-hash locking script of its
/// key (25 bytes) where `secret` is a valid secp256k1 scalar, and `None` otherwise.
pub open spec fn is_key_lock(secret: Seq<u8>, r: Option<Vec<u8>>) -> bool {
    &&& r is Some <==> is_secret_key(secret)
    &&& r matches Some(l) ==> l@ == lock_of_secret(secret) && l@.len() == 25
}

/// The key-hash locking script that pays to the key of `secret`; `None` where
/// `secret` is not a valid secp256k1 scalar.
pub fn key_lock(secret: &Vec<u8>) -> (r: Option<Vec<u8>>)
    ensures
        is_key_lock(secret@, r),
{
    match public_key_of(secret) {
        Some(pubkey) => Some(p2pkh_script(&pubkey)),
        None => None,
    }
}

/// Deriving the locking script from a key is deterministic: any two results of
/// [`key_lock`] on the same secret are both `None` or both the same 25 bytes.
pub proof fn lemma_key_lock_deterministic(secret: Seq<u8>, first: Option<Vec<u8>>, second: Option<Vec<u8>>)
    requires
        is_key_lock(secret, first),
        is_key_lock(secret, second),
    ensures
        first is Some <==> second is Some,
        first matches Some(a) ==> (second matches Some(b) && a@ == b@ && a@.len() == 25),
{
}

/// The digest signed when spending to the key of `secret`: the legacy digest of
/// input 0 of the unsigned draft, with that key's locking script as script code.
pub open spec fn spend_digest(secret: Seq<u8>, prev_txid: Seq<u8>, prev_vout: u32, value: u64) -> Seq<u8> {
    let lock = lock_of_secret(secret);
    let unsigned = tx_encoding_of(TX_VERSION, prev_txid, prev_vout, seq![], SEQUENCE_FINAL, value, lock, 0);
    legacy_sighash_of(unsigned, 0, lock, SIGHASH_ALL)
}

/// The unlocking script of a spend signed with `secret`.
pub open spec fn spend_unlock(secret: Seq<u8>, prev_txid: Seq<u8>, prev_vout: u32, value: u64) -> Seq<u8> {
    unlocking_script(
        ecdsa_der_of(secret, spend_digest(secret, prev_txid, prev_vout, value)),
        compressed_pubkey_of(secret),
    )
}

/// Spends output `prev_vout` of transaction `prev_txid` (hex, as the node shows
/// it), worth `value` satoshis, back to the key of `secret`, less `fee`.
/// The output pays to the same locking script that the signature commits to as
/// script code.
pub fn build_spend(prev_txid: &str, prev_vout: u32, value: u64, fee: u64, secret: &Vec<u8>) -> (r: Result<Spend, SpendError>)
    ensures
        (r == Err::<Spend, SpendError>(SpendError::InsufficientFunds)) <==> fee >= value,
        fee < value && !is_txid_text(prev_txid@) ==> r == Err::<Spend, SpendError>(SpendError::BadTxid),
        fee < value && is_txid_text(prev_txid@) && !is_secret_key(secret@)
            ==> r == Err::<Spend, SpendError>(SpendError::BadKey),
        fee < value && is_txid_text(prev_txid@) && is_secret_key(secret@) ==> r is Ok,
        r matches Ok(s) ==> {
            let txid = txid_bytes_of(prev_txid@);
            let out = (value - fee) as u64;
            &&& fee < value
            &&& s.draft.version == TX_VERSION
            &&& s.draft.prev_txid@ == txid
            &&& s.draft.prev_vout == prev_vout
            &&& s.draft.sequence == SEQUENCE_FINAL
            &&& s.draft.value == out
            &&& s.draft.script_pubkey@ == lock_of_secret(secret@)
            &&& s.draft.lock_time == 0
            &&& s.draft.script_sig@ == spend_unlock(secret@, txid, prev_vout, out)
            &&& s.hex@ == hex_text(s.draft.encoding())
        },
{
    let out = match output_value(value, fee) {
        Ok(v) => v,
        Err(e) => return Err(e),
    };
    let txid = match parse_txid(prev_txid) {
        Some(t) => t,
        None => return Err(SpendError::BadTxid),
    };
    let pubkey = match public_key_of(secret) {
        Some(p) => p,
        None => return Err(SpendError::BadKey),
    };
    let lock = p2pkh_script(&pubkey);
    let draft = unsigned_draft(txid, prev_vout, out, lock.clone());
    proof {
        assert(draft.script_sig@ =~= Seq::<u8>::empty());
    }
    let digest = legacy_sighash(&draft, 0, &lock, SIGHASH_ALL);
    let der = match sign_der(secret, &digest) {
        Some(s) => s,
        None => return Err(SpendError::BadKey),
    };
    let signed = attach_signature(draft, &der, &pubkey);
    let bytes = encode_draft(&signed);
    let hex = hex_encode(&bytes);
    Ok(Spend { draft: signed, hex })
}

} // verus!
