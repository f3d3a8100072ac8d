//! Bitcoin script plumbing for the transaction template family.
//!
//! Every transaction of the swap is one input and one output.  The shared
//! outputs (the lock and the cancel output) are pay-to-witness-script-hash
//! outputs of the descriptor
//! `wsh(or_d(multi(2,A,B),and_v(v:older(t),multi(2,A,B))))`:
//! either both parties sign, or, once `t` blocks have passed since the
//! output was confirmed, both sign on the timelocked branch.  Script
//! assembly, sighash computation, transaction ids, witness satisfaction
//! and consensus serialization are the `bitcoin` and `miniscript` crates'
//! work; each result is named here and proved facts go through the names.

use vstd::prelude::*;

use bitcoin::absolute::LockTime;
use bitcoin::hashes::Hash as HashBytes;
use bitcoin::sighash::SighashCache;
use bitcoin::transaction::Version;
use bitcoin::{Amount, EcdsaSighashType, OutPoint, ScriptBuf, Sequence, Transaction, TxIn, TxOut,
    Txid, Witness};
use bitcoin::ecdsa::Signature as EcdsaSig;
use bitcoin::secp256k1::ecdsa::Signature as CompactSig;
use miniscript::{Descriptor, Miniscript, Segwitv0};
use std::collections::HashMap;

use crate::ecdsa::pubkey_parses;

verus! {

/// The script-pubkey of the shared output descriptor for keys `a`, `b`
/// and relative timelock `timelock`.
pub uninterp spec fn shared_spk(a: Seq<u8>, b: Seq<u8>, timelock: u32) -> Seq<u8>;

/// The script code (witness script) of the shared output descriptor.
pub uninterp spec fn shared_script_code(a: Seq<u8>, b: Seq<u8>, timelock: u32) -> Seq<u8>;

/// The BIP143 all-inputs-all-outputs sighash of the one-input one-output
/// spend transaction described by the arguments.
pub uninterp spec fn sighash_of(prev: Seq<u8>, vout: u32, sequence: u32, script_code: Seq<u8>,
    value: u64, out_spk: Seq<u8>, out_value: u64) -> Seq<u8>;

/// The transaction id of the one-input one-output transaction described
/// by the arguments.  Witness data does not enter a transaction id.
pub uninterp spec fn txid_of(prev: Seq<u8>, vout: u32, sequence: u32, out_spk: Seq<u8>,
    out_value: u64) -> Seq<u8>;

/// The witness stack that satisfies the shared output descriptor with the
/// two parties' signatures.
pub uninterp spec fn shared_witness(a: Seq<u8>, b: Seq<u8>, timelock: u32, sig_a: Seq<u8>,
    sig_b: Seq<u8>) -> Seq<Seq<u8>>;

/// The consensus serialization of the one-input one-output transaction
/// described by the arguments, witness attached.
pub uninterp spec fn ser_spend_tx(prev: Seq<u8>, vout: u32, sequence: u32, out_spk: Seq<u8>,
    out_value: u64, witness: Seq<Seq<u8>>) -> Seq<u8>;

/// Relies on miniscript::Descriptor::script_pubkey: the script-pubkey is a
/// function of the descriptor, hence of the two keys and the timelock.
/// The fixed descriptor built from two parseable compressed keys and a
/// 16-bit timelock is well-typed miniscript, so construction does not fail.
#[verifier::external_body]
pub(crate) fn shared_output_spk(a: &[u8; 33], b: &[u8; 33], timelock: u32) -> (r: Vec<u8>)
    requires
        pubkey_parses(a@),
        pubkey_parses(b@),
        1 <= timelock <= 0xffff,
    ensures
        r@ == shared_spk(a@, b@, timelock),
{
    let ak = bitcoin::PublicKey::from_slice(a).expect("parseable by precondition");
    let bk = bitcoin::PublicKey::from_slice(b).expect("parseable by precondition");
    let s = format!("or_d(multi(2,{},{}),and_v(v:older({}),multi(2,{},{})))", ak, bk, timelock, ak, bk);
    let ms = Miniscript::<bitcoin::PublicKey, Segwitv0>::from_str_insane(&s).expect("fixed template");
    let d = Descriptor::new_wsh(ms).expect("top-level type is B");
    d.script_pubkey().into_bytes()
}

/// Relies on miniscript::Descriptor::script_code: the witness script is a
/// function of the descriptor, hence of the two keys and the timelock,
/// and a witness-script-hash descriptor always has one.
#[verifier::external_body]
pub(crate) fn shared_output_script_code(a: &[u8; 33], b: &[u8; 33], timelock: u32) -> (r: Vec<u8>)
    requires
        pubkey_parses(a@),
        pubkey_parses(b@),
        1 <= timelock <= 0xffff,
    ensures
        r@ == shared_script_code(a@, b@, timelock),
{
    let ak = bitcoin::PublicKey::from_slice(a).expect("parseable by precondition");
    let bk = bitcoin::PublicKey::from_slice(b).expect("parseable by precondition");
    let s = format!("or_d(multi(2,{},{}),and_v(v:older({}),multi(2,{},{})))", ak, bk, timelock, ak, bk);
    let ms = Miniscript::<bitcoin::PublicKey, Segwitv0>::from_str_insane(&s).expect("fixed template");
    let d = Descriptor::new_wsh(ms).expect("top-level type is B");
    d.script_code().expect("wsh descriptors have a script code").into_bytes()
}

/// Relies on bitcoin::sighash::SighashCache::p2wsh_signature_hash: the
/// sighash is a function of the spend transaction, the witness script and
/// the spent value.  Input index 0 exists, so the call does not fail.
#[verifier::external_body]
pub(crate) fn compute_sighash(prev: &[u8; 32], vout: u32, sequence: u32, script_code: &Vec<u8>,
    value: u64, out_spk: &Vec<u8>, out_value: u64) -> (r: [u8; 32])
    ensures
        r@ == sighash_of(prev@, vout, sequence, script_code@, value, out_spk@, out_value),
{
    let txin = TxIn { previous_output: OutPoint { txid: Txid::from_byte_array(*prev), vout }, script_sig: ScriptBuf::new(), sequence: Sequence(sequence), witness: Witness::new() };
    let txout = TxOut { value: Amount::from_sat(out_value), script_pubkey: ScriptBuf::from_bytes(out_spk.clone()) };
    let tx = Transaction { version: Version::TWO, lock_time: LockTime::ZERO, input: vec![txin], output: vec![txout] };
    let mut cache = SighashCache::new(&tx);
    let h = cache.p2wsh_signature_hash(0, bitcoin::Script::from_bytes(script_code), Amount::from_sat(value), EcdsaSighashType::All).expect("the single input exists");
    h.to_byte_array()
}

/// Relies on bitcoin::Transaction::compute_txid: the id is the hash of the
/// transaction without witness data, a function of the listed fields.
#[verifier::external_body]
pub(crate) fn compute_txid(prev: &[u8; 32], vout: u32, sequence: u32, out_spk: &Vec<u8>,
    out_value: u64) -> (r: [u8; 32])
    ensures
        r@ == txid_of(prev@, vout, sequence, out_spk@, out_value),
{
    let txin = TxIn { previous_output: OutPoint { txid: Txid::from_byte_array(*prev), vout }, script_sig: ScriptBuf::new(), sequence: Sequence(sequence), witness: Witness::new() };
    let txout = TxOut { value: Amount::from_sat(out_value), script_pubkey: ScriptBuf::from_bytes(out_spk.clone()) };
    let tx = Transaction { version: Version::TWO, lock_time: LockTime::ZERO, input: vec![txin], output: vec![txout] };
    tx.compute_txid().to_byte_array()
}

/// Relies on miniscript::Descriptor::satisfy (and through it on
/// Descriptor::get_satisfaction): the produced witness stack is a
/// function of the keys, the timelock and the signatures, and it is
/// written into the input's witness.  With a parsed signature for each
/// key the satisfier answers every lookup on the non-timelocked
/// `multi(2,A,B)` branch of the fixed descriptor, so satisfaction
/// succeeds whenever both compact signatures parse.
#[verifier::external_body]
pub(crate) fn satisfy_shared_input(a: &[u8; 33], b: &[u8; 33], timelock: u32, sig_a: &[u8; 64],
    sig_b: &[u8; 64]) -> (r: Option<Vec<Vec<u8>>>)
    requires
        pubkey_parses(a@),
        pubkey_parses(b@),
        1 <= timelock <= 0xffff,
    ensures
        r matches Some(w) ==> w.deep_view() == shared_witness(a@, b@, timelock, sig_a@, sig_b@),
        crate::ecdsa::sig_parses(sig_a@) && crate::ecdsa::sig_parses(sig_b@) ==> r is Some,
{
    let ak = bitcoin::PublicKey::from_slice(a).unwrap();
    let bk = bitcoin::PublicKey::from_slice(b).unwrap();
    let s = format!("or_d(multi(2,{},{}),and_v(v:older({}),multi(2,{},{})))", ak, bk, timelock, ak, bk);
    let d = Descriptor::new_wsh(Miniscript::from_str_insane(&s).unwrap()).unwrap();
    let sa = CompactSig::from_compact(sig_a).ok()?;
    let sb = CompactSig::from_compact(sig_b).ok()?;
    let mut sigs = HashMap::new();
    sigs.insert(ak, EcdsaSig::sighash_all(sa));
    sigs.insert(bk, EcdsaSig::sighash_all(sb));
    let mut txin = TxIn { previous_output: OutPoint::null(), ..TxIn::default() };
    d.satisfy(&mut txin, sigs).ok()?;
    Some(txin.witness.to_vec())
}

/// Relies on bitcoin::consensus::encode::serialize: the wire bytes are a
/// function of the transaction, witness data in this case attached.
#[verifier::external_body]
pub(crate) fn serialize_spend_tx(prev: &[u8; 32], vout: u32, sequence: u32, out_spk: &Vec<u8>,
    out_value: u64, witness: &Vec<Vec<u8>>) -> (r: Vec<u8>)
    ensures
        r@ == ser_spend_tx(prev@, vout, sequence, out_spk@, out_value, witness.deep_view()),
{
    let txin = TxIn { previous_output: OutPoint { txid: Txid::from_byte_array(*prev), vout }, script_sig: ScriptBuf::new(), sequence: Sequence(sequence), witness: Witness::from_slice(witness) };
    let txout = TxOut { value: Amount::from_sat(out_value), script_pubkey: ScriptBuf::from_bytes(out_spk.clone()) };
    let tx = Transaction { version: Version::TWO, lock_time: LockTime::ZERO, input: vec![txin], output: vec![txout] };
    bitcoin::consensus::encode::serialize(&tx)
}

} // verus!
