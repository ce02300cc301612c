//! Calls into the bitcoin and hex crates, each with the contract the library
//! relies on.
use vstd::prelude::*;

use bitcoin::consensus::encode::serialize;
use bitcoin::hashes::Hash as _;
use bitcoin::locktime::absolute::LockTime;
use bitcoin::script::PushBytesBuf;
use bitcoin::sighash::SighashCache;
use bitcoin::transaction::Version;
use bitcoin::{
    Address, Amount, Network, OutPoint, PrivateKey, PubkeyHash, PublicKey, Script, ScriptBuf,
    Sequence, Transaction, TxIn, TxOut, Txid, Witness,
};
use std::str::FromStr;

use crate::tx::Draft;

verus! {

/// The compressed public key of a secret scalar.
pub uninterp spec fn compressed_pubkey_of(secret: Seq<u8>) -> Seq<u8>;

/// RIPEMD-160 of SHA-256 of the bytes.
pub uninterp spec fn hash160_of(data: Seq<u8>) -> Seq<u8>;

/// An ASCII hex digit, either case.
pub open spec fn is_hex_char(c: char) -> bool {
    ('0' <= c && c <= '9') || ('a' <= c && c <= 'f') || ('A' <= c && c <= 'F')
}

/// The value of a hex digit.
pub open spec fn hex_value(c: char) -> int {
    if '0' <= c && c <= '9' {
        c as int - '0' as int
    } else if 'a' <= c && c <= 'f' {
        c as int - 'a' as int + 10
    } else {
        c as int - 'A' as int + 10
    }
}

/// A transaction id as text: exactly 64 hex digits.
pub open spec fn is_txid_text(text: Seq<char>) -> bool {
    text.len() == 64 && forall|i: int| 0 <= i < 64 ==> is_hex_char(#[trigger] text[i])
}

/// The internal byte order of a transaction id written in hex: the 32 bytes the
/// digit pairs give, last pair first.
pub open spec fn txid_bytes_of(text: Seq<char>) -> Seq<u8> {
    Seq::new(32, |i: int| (hex_value(text[62 - 2 * i]) * 16 + hex_value(text[63 - 2 * i])) as u8)
}

/// The order of the secp256k1 group, written as its high and low 128 bits.
pub open spec fn curve_order() -> int {
    let two_64: int = 0x1_0000_0000_0000_0000;
    0xFFFF_FFFF_FFFF_FFFF_FFFF_FFFF_FFFF_FFFE * two_64 * two_64
        + 0xBAAE_DCE6_AF48_A03B_BFD2_5E8C_D036_4141
}

/// The bytes read as a big-endian unsigned integer.
pub open spec fn be_value(b: Seq<u8>) -> int
    decreases b.len(),
{
    if b.len() == 0 {
        0
    } else {
        be_value(b.drop_last()) * 256 + b.last()
    }
}

/// A valid secp256k1 secret: 32 big-endian bytes of a value in 1 .. n - 1.
pub open spec fn is_secret_key(secret: Seq<u8>) -> bool {
    secret.len() == 32 && 0 < be_value(secret) < curve_order()
}

/// The low `n` bytes of `v`, least significant first.
pub open spec fn le_bytes(v: int, n: nat) -> Seq<u8>
    decreases n,
{
    if n == 0 {
        seq![]
    } else {
        seq![(v % 256) as u8] + le_bytes(v / 256, (n - 1) as nat)
    }
}

/// The compact-size length prefix of the consensus encoding.
pub open spec fn compact_size(n: nat) -> Seq<u8> {
    if n <= 0xfc {
        seq![n as u8]
    } else if n <= 0xffff {
        seq![0xfdu8] + le_bytes(n as int, 2)
    } else if n <= 0xffff_ffff {
        seq![0xfeu8] + le_bytes(n as int, 4)
    } else {
        seq![0xffu8] + le_bytes(n as int, 8)
    }
}

/// Bytes preceded by their compact-size length.
pub open spec fn with_length(b: Seq<u8>) -> Seq<u8> {
    compact_size(b.len()) + b
}

/// The consensus encoding of a one-input, one-output transaction without
/// witness: version, one input (outpoint, unlocking script, sequence), one output
/// (value, locking script), lock time; integers little-endian.
pub open spec fn tx_encoding_of(
    version: i32,
    prev_txid: Seq<u8>,
    prev_vout: u32,
    script_sig: Seq<u8>,
    sequence: u32,
    value: u64,
    script_pubkey: Seq<u8>,
    lock_time: u32,
) -> Seq<u8> {
    le_bytes(version as int % 0x1_0000_0000, 4) + seq![1u8] + prev_txid + le_bytes(prev_vout as int, 4)
        + with_length(script_sig) + le_bytes(sequence as int, 4) + seq![1u8]
        + le_bytes(value as int, 8) + with_length(script_pubkey) + le_bytes(lock_time as int, 4)
}

/// The legacy signature digest of input `index` of an encoded transaction.
pub uninterp spec fn legacy_sighash_of(
    tx: Seq<u8>,
    index: usize,
    script_code: Seq<u8>,
    sighash_type: u32,
) -> Seq<u8>;

/// The DER encoding of the deterministic (RFC 6979) ECDSA signature of a digest.
pub uninterp spec fn ecdsa_der_of(secret: Seq<u8>, digest: Seq<u8>) -> Seq<u8>;

/// The pay-to-public-key-hash locking script over a 20-byte key hash:
/// OP_DUP OP_HASH160 <push 20> hash OP_EQUALVERIFY OP_CHECKSIG.
pub open spec fn p2pkh_lock(hash: Seq<u8>) -> Seq<u8> {
    seq![0x76u8, 0xa9u8, 0x14u8] + hash + seq![0x88u8, 0xacu8]
}

/// A data push of fewer than 76 bytes: its length as one opcode byte, then the data.
pub open spec fn push_data(data: Seq<u8>) -> Seq<u8> {
    seq![data.len() as u8] + data
}

/// One lower-case hex digit.
pub open spec fn hex_digit(n: u8) -> char {
    seq!['0', '1', '2', '3', '4', '5', '6', '7', '8', '9', 'a', 'b', 'c', 'd', 'e', 'f'][n as int]
}

/// Two lower-case hex digits per byte, high nibble first.
pub open spec fn hex_text(b: Seq<u8>) -> Seq<char>
    decreases b.len(),
{
    if b.len() == 0 {
        seq![]
    } else {
        hex_text(b.drop_last()) + seq![hex_digit(b.last() / 16), hex_digit(b.last() % 16)]
    }
}

/// Relies on bitcoin's `PrivateKey::from_slice` (secp256k1's `SecretKey::from_slice`:
/// 32 bytes that `secp256k1_ec_seckey_verify` accepts) and
/// `PublicKey::from_private_key`: a valid secret gives its compressed (33-byte)
/// public key, any other bytes an error.
#[verifier::external_body]
pub(crate) fn public_key_of(secret: &Vec<u8>) -> (r: Option<Vec<u8>>)
    ensures
        r is Some <==> is_secret_key(secret@),
        r matches Some(pk) ==> pk@ == compressed_pubkey_of(secret@) && pk@.len() == 33,
{
    let sk = PrivateKey::from_slice(secret, Network::Regtest).ok()?;
    Some(PublicKey::from_private_key(&bitcoin::secp256k1::Secp256k1::new(), &sk).to_bytes())
}

/// Relies on bitcoin's `PubkeyHash::hash` (HASH160) and on
/// `Address::p2pkh(..).script_pubkey()`, which is `ScriptBuf::new_p2pkh` of that hash.
#[verifier::external_body]
pub(crate) fn p2pkh_script(pubkey: &Vec<u8>) -> (r: Vec<u8>)
    ensures
        r@ == p2pkh_lock(hash160_of(pubkey@)),
        r@.len() == 25,
{
    Address::p2pkh(<PubkeyHash as bitcoin::hashes::Hash>::hash(pubkey), Network::Regtest).script_pubkey().into_bytes()
}

/// Relies on bitcoin's `Txid::from_str` (hex-conservative's `FromHex` for a
/// 32-byte array: exactly 64 bytes, each a hex digit of either case; then the
/// bytes reversed).
#[verifier::external_body]
pub(crate) fn parse_txid(text: &str) -> (r: Option<[u8; 32]>)
    ensures
        r is Some <==> is_txid_text(text@),
        r matches Some(b) ==> b@ == txid_bytes_of(text@),
{
    Txid::from_str(text).ok().map(bitcoin::hashes::Hash::to_byte_array)
}

/// Relies on bitcoin's `consensus::encode::serialize` of a `Transaction` built
/// from the draft's fields: with one input and no witness data it writes the
/// legacy layout (`Transaction::consensus_encode`, `VarInt`).
#[verifier::external_body]
pub(crate) fn encode_draft(d: &Draft) -> (r: Vec<u8>)
    ensures
        r@ == tx_encoding_of(d.version, d.prev_txid@, d.prev_vout, d.script_sig@, d.sequence, d.value,
            d.script_pubkey@, d.lock_time),
{
    serialize(&Transaction {
        version: Version(d.version),
        lock_time: LockTime::from_consensus(d.lock_time),
        input: vec![TxIn {
            previous_output: OutPoint::new(Txid::from_byte_array(d.prev_txid), d.prev_vout),
            script_sig: ScriptBuf::from_bytes(d.script_sig.clone()),
            sequence: Sequence(d.sequence),
            witness: Witness::new(),
        }],
        output: vec![TxOut { value: Amount::from_sat(d.value), script_pubkey: ScriptBuf::from_bytes(d.script_pubkey.clone()) }],
    })
}

/// Relies on bitcoin's `SighashCache::legacy_signature_hash` over a `Transaction`
/// built from the draft's fields; it fails only for an index past the inputs,
/// and the draft has one.
#[verifier::external_body]
pub(crate) fn legacy_sighash(d: &Draft, index: usize, script_code: &Vec<u8>, sighash_type: u32) -> (r: Vec<u8>)
    requires
        index == 0,
    ensures
        r@ == legacy_sighash_of(
            tx_encoding_of(d.version, d.prev_txid@, d.prev_vout, d.script_sig@, d.sequence, d.value,
                d.script_pubkey@, d.lock_time),
            index,
            script_code@,
            sighash_type,
        ),
        r@.len() == 32,
{
    let input = TxIn {
        previous_output: OutPoint::new(Txid::from_byte_array(d.prev_txid), d.prev_vout),
        script_sig: ScriptBuf::from_bytes(d.script_sig.clone()),
        sequence: Sequence(d.sequence),
        witness: Witness::new(),
    };
    let output = TxOut { value: Amount::from_sat(d.value), script_pubkey: ScriptBuf::from_bytes(d.script_pubkey.clone()) };
    let t = Transaction { version: Version(d.version), lock_time: LockTime::from_consensus(d.lock_time), input: vec![input], output: vec![output] };
    let h = SighashCache::new(&t).legacy_signature_hash(index, Script::from_bytes(script_code), sighash_type);
    h.expect("index 0 of one input").to_byte_array().to_vec()
}

/// Relies on secp256k1's `SecretKey::from_slice` (32 bytes that
/// `secp256k1_ec_seckey_verify` accepts), `Message::from_digest_slice` (exactly 32
/// bytes), `sign_ecdsa` (RFC 6979 nonces) and `serialize_der` (at most 72 bytes).
#[verifier::external_body]
pub(crate) fn sign_der(secret: &Vec<u8>, digest: &Vec<u8>) -> (r: Option<Vec<u8>>)
    ensures
        (r is Some) == (is_secret_key(secret@) && digest@.len() == 32),
        r matches Some(s) ==> s@ == ecdsa_der_of(secret@, digest@) && s@.len() <= 72,
{
    let sk = bitcoin::secp256k1::SecretKey::from_slice(secret).ok()?;
    let msg = bitcoin::secp256k1::Message::from_digest_slice(digest).ok()?;
    let sig = bitcoin::secp256k1::Secp256k1::new().sign_ecdsa(&msg, &sk);
    Some(sig.serialize_der().to_vec())
}

/// Relies on bitcoin's `script::Builder::push_slice`, which writes a push of
/// fewer than 76 bytes as its length followed by the bytes.
#[verifier::external_body]
pub(crate) fn two_push_script(first: &Vec<u8>, second: &Vec<u8>) -> (r: Vec<u8>)
    requires
        first@.len() < 76,
        second@.len() < 76,
    ensures
        r@ == push_data(first@) + push_data(second@),
{
    let a = PushBytesBuf::try_from(first.clone()).expect("short push");
    let b = PushBytesBuf::try_from(second.clone()).expect("short push");
    ScriptBuf::builder().push_slice(a).push_slice(b).into_script().into_bytes()
}

/// Relies on `hex::encode`: two lower-case digits per byte.
#[verifier::external_body]
pub(crate) fn hex_encode(b: &Vec<u8>) -> (r: String)
    ensures
        r@ == hex_text(b@),
{
    hex::encode(b)
}

} // verus!
