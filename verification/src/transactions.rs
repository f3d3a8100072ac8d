//! The five deterministic Bitcoin transaction templates of the swap.
//!
//! `TxLock` funds a shared output guarded by the cancel timelock.
//! `TxRedeem` spends it to Alice once she decrypts Bob's adaptor
//! signature; `TxCancel` spends it after the cancel timelock into a second
//! shared output guarded by the punish timelock, from which `TxRefund`
//! pays Bob back and `TxPunish` pays Alice if Bob never refunds.  Every
//! template is a pure function of its inputs, so both parties derive the
//! same transaction ids, sighashes and serialized bytes independently.
//! Completion fails with `Unsatisfied` whenever a signature does not
//! verify for the template's digest.

use vstd::prelude::*;

use crate::ecdsa::{sig_of, sig_valid, Keypair, PubKey};
use crate::script::{
    compute_sighash, compute_txid, satisfy_shared_input, ser_spend_tx, serialize_spend_tx,
    shared_output_script_code, shared_output_spk, shared_script_code, shared_spk, shared_witness,
    sighash_of, txid_of,
};
use crate::TX_FEE;

verus! {

/// Sequence number of a spend that uses no relative timelock.
pub const SEQUENCE_FINAL: u32 = 0xffff_ffff;

/// Failure of template completion.
#[derive(Clone, Copy, PartialEq, Eq, Structural, Debug)]
pub enum TemplateError {
    /// A provided signature does not satisfy the spent output.
    Unsatisfied,
}

/// The transaction that locks Bob's bitcoin in the shared output
/// `wsh(or_d(multi(2,A,B),and_v(v:older(cancel_timelock),multi(2,A,B))))`.
pub struct TxLock {
    a: PubKey,
    b: PubKey,
    fund_txid: [u8; 32],
    fund_vout: u32,
    btc: u64,
    cancel_timelock: u32,
    spk: Vec<u8>,
    script_code: Vec<u8>,
    txid: [u8; 32],
}

impl TxLock {
    /// Alice's public key.
    pub closed spec fn spec_a(self) -> Seq<u8> {
        self.a.spec_bytes()
    }

    /// Bob's public key.
    pub closed spec fn spec_b(self) -> Seq<u8> {
        self.b.spec_bytes()
    }

    /// The locked amount in satoshi.
    pub closed spec fn spec_btc(self) -> u64 {
        self.btc
    }

    /// The cancel timelock guarding the shared output.
    pub closed spec fn spec_cancel_timelock(self) -> u32 {
        self.cancel_timelock
    }

    /// The lock transaction's id.
    pub closed spec fn spec_txid(self) -> Seq<u8> {
        self.txid@
    }

    /// The shared output's script-pubkey.
    pub closed spec fn spec_spk(self) -> Seq<u8> {
        self.spk@
    }

    #[verifier::type_invariant]
    spec fn wf(self) -> bool {
        &&& 1 <= self.cancel_timelock <= 0xffff
        &&& self.btc >= 2 * TX_FEE
        &&& self.spk@ == shared_spk(self.a.spec_bytes(), self.b.spec_bytes(),
            self.cancel_timelock)
        &&& self.script_code@ == shared_script_code(self.a.spec_bytes(), self.b.spec_bytes(),
            self.cancel_timelock)
        &&& self.txid@ == txid_of(self.fund_txid@, self.fund_vout, SEQUENCE_FINAL, self.spk@,
            self.btc)
    }

    /// Builds the lock transaction from the parties' keys, Bob's funding
    /// outpoint, the amount and the cancel timelock.  Every derived field
    /// is a function of these inputs alone.
    pub fn new(a: &PubKey, b: &PubKey, fund_txid: [u8; 32], fund_vout: u32, btc: u64,
        cancel_timelock: u32) -> (r: TxLock)
        requires
            1 <= cancel_timelock <= 0xffff,
            btc >= 2 * TX_FEE,
        ensures
            r.spec_a() == a.spec_bytes(),
            r.spec_b() == b.spec_bytes(),
            r.spec_btc() == btc,
            r.spec_cancel_timelock() == cancel_timelock,
            r.spec_spk() == shared_spk(a.spec_bytes(), b.spec_bytes(), cancel_timelock),
            r.spec_txid() == txid_of(fund_txid@, fund_vout, SEQUENCE_FINAL,
                shared_spk(a.spec_bytes(), b.spec_bytes(), cancel_timelock), btc),
    {
        let ab = a.bytes();
        let bb = b.bytes();
        let spk = shared_output_spk(&ab, &bb, cancel_timelock);
        let script_code = shared_output_script_code(&ab, &bb, cancel_timelock);
        let txid = compute_txid(&fund_txid, fund_vout, SEQUENCE_FINAL, &spk, btc);
        TxLock { a: *a, b: *b, fund_txid, fund_vout, btc, cancel_timelock, spk, script_code, txid }
    }

    /// The transaction id to watch for on chain.
    pub fn txid(&self) -> (r: [u8; 32])
        ensures
            r@ == self.spec_txid(),
    {
        proof {
            use_type_invariant(&*self);
        }
        self.txid
    }

    /// The locked amount.
    pub fn btc(&self) -> (r: u64)
        ensures
            r == self.spec_btc(),
            r >= 2 * TX_FEE,
    {
        proof {
            use_type_invariant(&*self);
        }
        self.btc
    }
}

/// The transaction that moves the locked coins into the punish-guarded
/// shared output once the cancel timelock has passed.
pub struct TxCancel {
    a: PubKey,
    b: PubKey,
    lock_txid: [u8; 32],
    lock_value: u64,
    cancel_timelock: u32,
    punish_timelock: u32,
    amount: u64,
    spk: Vec<u8>,
    script_code: Vec<u8>,
    digest: [u8; 32],
    txid: [u8; 32],
}

impl TxCancel {
    /// Alice's public key.
    pub closed spec fn spec_a(self) -> Seq<u8> {
        self.a.spec_bytes()
    }

    /// Bob's public key.
    pub closed spec fn spec_b(self) -> Seq<u8> {
        self.b.spec_bytes()
    }

    /// The id of the lock transaction this spends.
    pub closed spec fn spec_lock_txid(self) -> Seq<u8> {
        self.lock_txid@
    }

    /// The value of its own output: the locked amount less the fee.
    pub closed spec fn spec_amount(self) -> u64 {
        self.amount
    }

    /// The cancel timelock (sequence number of the spend).
    pub closed spec fn spec_cancel_timelock(self) -> u32 {
        self.cancel_timelock
    }

    /// The punish timelock guarding its own output.
    pub closed spec fn spec_punish_timelock(self) -> u32 {
        self.punish_timelock
    }

    /// The sighash both parties sign.
    pub closed spec fn spec_digest(self) -> Seq<u8> {
        self.digest@
    }

    /// Its transaction id.
    pub closed spec fn spec_txid(self) -> Seq<u8> {
        self.txid@
    }

    #[verifier::type_invariant]
    spec fn wf(self) -> bool {
        &&& 1 <= self.cancel_timelock <= 0xffff
        &&& 1 <= self.punish_timelock <= 0xffff
        &&& self.lock_value >= 2 * TX_FEE
        &&& self.amount == self.lock_value - TX_FEE
        &&& self.spk@ == shared_spk(self.a.spec_bytes(), self.b.spec_bytes(),
            self.punish_timelock)
        &&& self.script_code@ == shared_script_code(self.a.spec_bytes(), self.b.spec_bytes(),
            self.punish_timelock)
        &&& self.digest@ == sighash_of(self.lock_txid@, 0, self.cancel_timelock,
            shared_script_code(self.a.spec_bytes(), self.b.spec_bytes(), self.cancel_timelock),
            self.lock_value, self.spk@, self.amount)
        &&& self.txid@ == txid_of(self.lock_txid@, 0, self.cancel_timelock, self.spk@,
            self.amount)
    }

    /// Derives the cancel transaction from the lock transaction and the
    /// punish timelock.
    pub fn new(lock: &TxLock, punish_timelock: u32) -> (r: TxCancel)
        requires
            1 <= punish_timelock <= 0xffff,
        ensures
            r.spec_a() == lock.spec_a(),
            r.spec_b() == lock.spec_b(),
            r.spec_lock_txid() == lock.spec_txid(),
            r.spec_amount() == lock.spec_btc() - TX_FEE,
            r.spec_cancel_timelock() == lock.spec_cancel_timelock(),
            r.spec_punish_timelock() == punish_timelock,
            r.spec_digest() == sighash_of(lock.spec_txid(), 0, lock.spec_cancel_timelock(),
                shared_script_code(lock.spec_a(), lock.spec_b(), lock.spec_cancel_timelock()),
                lock.spec_btc(),
                shared_spk(lock.spec_a(), lock.spec_b(), punish_timelock),
                (lock.spec_btc() - TX_FEE) as u64),
            r.spec_txid() == txid_of(lock.spec_txid(), 0, lock.spec_cancel_timelock(),
                shared_spk(lock.spec_a(), lock.spec_b(), punish_timelock),
                (lock.spec_btc() - TX_FEE) as u64),
    {
        proof {
            use_type_invariant(&*lock);
        }
        let ab = lock.a.bytes();
        let bb = lock.b.bytes();
        let amount: u64 = lock.btc - TX_FEE;
        let spk = shared_output_spk(&ab, &bb, punish_timelock);
        let script_code = shared_output_script_code(&ab, &bb, punish_timelock);
        let digest = compute_sighash(&lock.txid, 0, lock.cancel_timelock, &lock.script_code,
            lock.btc, &spk, amount);
        let txid = compute_txid(&lock.txid, 0, lock.cancel_timelock, &spk, amount);
        TxCancel {
            a: lock.a,
            b: lock.b,
            lock_txid: lock.txid,
            lock_value: lock.btc,
            cancel_timelock: lock.cancel_timelock,
            punish_timelock,
            amount,
            spk,
            script_code,
            digest,
            txid,
        }
    }

    /// The sighash both parties sign.
    pub fn digest(&self) -> (r: [u8; 32])
        ensures
            r@ == self.spec_digest(),
    {
        proof {
            use_type_invariant(&*self);
        }
        self.digest
    }

    /// Its transaction id.
    pub fn txid(&self) -> (r: [u8; 32])
        ensures
            r@ == self.spec_txid(),
    {
        proof {
            use_type_invariant(&*self);
        }
        self.txid
    }

    /// The value of its own output.
    pub fn amount(&self) -> (r: u64)
        ensures
            r == self.spec_amount(),
            r >= TX_FEE,
    {
        proof {
            use_type_invariant(&*self);
        }
        self.amount
    }

    /// Attaches both parties' signatures and serializes the transaction.
    /// Fails with `Unsatisfied` whenever a signature does not verify for
    /// the digest.
    pub fn complete(&self, sig_a: &[u8; 64], sig_b: &[u8; 64]) -> (r: Result<
        Vec<u8>,
        TemplateError,
    >)
        ensures
            !(sig_valid(self.spec_a(), self.spec_digest(), sig_a@)
                && sig_valid(self.spec_b(), self.spec_digest(), sig_b@)) ==> r is Err,
            sig_valid(self.spec_a(), self.spec_digest(), sig_a@)
                && sig_valid(self.spec_b(), self.spec_digest(), sig_b@) ==> r is Ok,
            r matches Ok(bytes) ==> sig_valid(self.spec_a(), self.spec_digest(), sig_a@)
                && sig_valid(self.spec_b(), self.spec_digest(), sig_b@)
                && bytes@ == ser_spend_tx(self.spec_lock_txid(), 0, self.spec_cancel_timelock(),
                    shared_spk(self.spec_a(), self.spec_b(), self.spec_punish_timelock()),
                    self.spec_amount(),
                    shared_witness(self.spec_a(), self.spec_b(), self.spec_cancel_timelock(),
                        sig_a@, sig_b@)),
    {
        proof {
            use_type_invariant(&*self);
        }
        let ab = self.a.bytes();
        let bb = self.b.bytes();
        if !crate::ecdsa::verify_sig(&ab, &self.digest, sig_a) {
            return Err(TemplateError::Unsatisfied);
        }
        if !crate::ecdsa::verify_sig(&bb, &self.digest, sig_b) {
            return Err(TemplateError::Unsatisfied);
        }
        match satisfy_shared_input(&ab, &bb, self.cancel_timelock, sig_a, sig_b) {
            Some(w) => Ok(serialize_spend_tx(&self.lock_txid, 0, self.cancel_timelock, &self.spk,
                self.amount, &w)),
            None => Err(TemplateError::Unsatisfied),
        }
    }
}

/// The transaction with which Alice collects the locked coins: it spends
/// the lock output to her redeem address.  Bob signs it only as an
/// adaptor signature under Alice's cross-curve commitment, so her
/// publication of the completed signature reveals her scalar half.
pub struct TxRedeem {
    a: PubKey,
    b: PubKey,
    lock_txid: [u8; 32],
    lock_value: u64,
    cancel_timelock: u32,
    redeem_spk: Vec<u8>,
    amount: u64,
    digest: [u8; 32],
    txid: [u8; 32],
}

impl TxRedeem {
    /// Alice's public key.
    pub closed spec fn spec_a(self) -> Seq<u8> {
        self.a.spec_bytes()
    }

    /// Bob's public key.
    pub closed spec fn spec_b(self) -> Seq<u8> {
        self.b.spec_bytes()
    }

    /// The id of the lock transaction this spends.
    pub closed spec fn spec_lock_txid(self) -> Seq<u8> {
        self.lock_txid@
    }

    /// The redeem address's script-pubkey.
    pub closed spec fn spec_redeem_spk(self) -> Seq<u8> {
        self.redeem_spk@
    }

    /// The cancel timelock of the lock output this spends.
    pub closed spec fn spec_cancel_timelock(self) -> u32 {
        self.cancel_timelock
    }

    /// What the redeem pays Alice: the locked amount less the fee.
    pub closed spec fn spec_amount(self) -> u64 {
        self.amount
    }

    /// The sighash both parties sign.
    pub closed spec fn spec_digest(self) -> Seq<u8> {
        self.digest@
    }

    /// Its transaction id.
    pub closed spec fn spec_txid(self) -> Seq<u8> {
        self.txid@
    }

    #[verifier::type_invariant]
    spec fn wf(self) -> bool {
        &&& 1 <= self.cancel_timelock <= 0xffff
        &&& self.lock_value >= 2 * TX_FEE
        &&& self.amount == self.lock_value - TX_FEE
        &&& self.digest@ == sighash_of(self.lock_txid@, 0, SEQUENCE_FINAL,
            shared_script_code(self.a.spec_bytes(), self.b.spec_bytes(), self.cancel_timelock),
            self.lock_value, self.redeem_spk@, self.amount)
        &&& self.txid@ == txid_of(self.lock_txid@, 0, SEQUENCE_FINAL, self.redeem_spk@,
            self.amount)
    }

    /// Derives the redeem transaction from the lock transaction and
    /// Alice's redeem script.
    pub fn new(lock: &TxLock, redeem_spk: Vec<u8>) -> (r: TxRedeem)
        ensures
            r.spec_a() == lock.spec_a(),
            r.spec_b() == lock.spec_b(),
            r.spec_lock_txid() == lock.spec_txid(),
            r.spec_redeem_spk() == redeem_spk@,
            r.spec_amount() == lock.spec_btc() - TX_FEE,
            r.spec_digest() == sighash_of(lock.spec_txid(), 0, SEQUENCE_FINAL,
                shared_script_code(lock.spec_a(), lock.spec_b(), lock.spec_cancel_timelock()),
                lock.spec_btc(), redeem_spk@, (lock.spec_btc() - TX_FEE) as u64),
            r.spec_txid() == txid_of(lock.spec_txid(), 0, SEQUENCE_FINAL, redeem_spk@,
                (lock.spec_btc() - TX_FEE) as u64),
    {
        proof {
            use_type_invariant(&*lock);
        }
        let amount: u64 = lock.btc - TX_FEE;
        let digest = compute_sighash(&lock.txid, 0, SEQUENCE_FINAL, &lock.script_code, lock.btc,
            &redeem_spk, amount);
        let txid = compute_txid(&lock.txid, 0, SEQUENCE_FINAL, &redeem_spk, amount);
        TxRedeem {
            a: lock.a,
            b: lock.b,
            lock_txid: lock.txid,
            lock_value: lock.btc,
            cancel_timelock: lock.cancel_timelock,
            redeem_spk,
            amount,
            digest,
            txid,
        }
    }

    /// The sighash both parties sign.
    pub fn digest(&self) -> (r: [u8; 32])
        ensures
            r@ == self.spec_digest(),
    {
        proof {
            use_type_invariant(&*self);
        }
        self.digest
    }

    /// Its transaction id.
    pub fn txid(&self) -> (r: [u8; 32])
        ensures
            r@ == self.spec_txid(),
    {
        proof {
            use_type_invariant(&*self);
        }
        self.txid
    }

    /// What the redeem pays Alice.
    pub fn amount(&self) -> (r: u64)
        ensures
            r == self.spec_amount(),
    {
        proof {
            use_type_invariant(&*self);
        }
        self.amount
    }

    /// Attaches both parties' signatures and serializes the transaction.
    /// Fails with `Unsatisfied` whenever a signature does not verify for
    /// the digest.
    pub fn complete(&self, sig_a: &[u8; 64], sig_b: &[u8; 64]) -> (r: Result<
        Vec<u8>,
        TemplateError,
    >)
        ensures
            !(sig_valid(self.spec_a(), self.spec_digest(), sig_a@)
                && sig_valid(self.spec_b(), self.spec_digest(), sig_b@)) ==> r is Err,
            sig_valid(self.spec_a(), self.spec_digest(), sig_a@)
                && sig_valid(self.spec_b(), self.spec_digest(), sig_b@) ==> r is Ok,
            r matches Ok(bytes) ==> sig_valid(self.spec_a(), self.spec_digest(), sig_a@)
                && sig_valid(self.spec_b(), self.spec_digest(), sig_b@)
                && bytes@ == ser_spend_tx(self.spec_lock_txid(), 0, SEQUENCE_FINAL,
                    self.spec_redeem_spk(), self.spec_amount(),
                    shared_witness(self.spec_a(), self.spec_b(), self.spec_cancel_timelock(),
                        sig_a@, sig_b@)),
    {
        proof {
            use_type_invariant(&*self);
        }
        let ab = self.a.bytes();
        let bb = self.b.bytes();
        if !crate::ecdsa::verify_sig(&ab, &self.digest, sig_a) {
            return Err(TemplateError::Unsatisfied);
        }
        if !crate::ecdsa::verify_sig(&bb, &self.digest, sig_b) {
            return Err(TemplateError::Unsatisfied);
        }
        match satisfy_shared_input(&ab, &bb, self.cancel_timelock, sig_a, sig_b) {
            Some(w) => Ok(serialize_spend_tx(&self.lock_txid, 0, SEQUENCE_FINAL, &self.redeem_spk,
                self.amount, &w)),
            None => Err(TemplateError::Unsatisfied),
        }
    }
}

/// The transaction with which Bob takes his coins back out of the cancel
/// output, within the punish timelock.  Alice signs it only as an adaptor
/// signature under Bob's cross-curve commitment, so Bob's publication
/// reveals his scalar half to Alice.
pub struct TxRefund {
    a: PubKey,
    b: PubKey,
    cancel_txid: [u8; 32],
    cancel_value: u64,
    punish_timelock: u32,
    refund_spk: Vec<u8>,
    amount: u64,
    digest: [u8; 32],
    txid: [u8; 32],
}

impl TxRefund {
    /// Alice's public key.
    pub closed spec fn spec_a(self) -> Seq<u8> {
        self.a.spec_bytes()
    }

    /// Bob's public key.
    pub closed spec fn spec_b(self) -> Seq<u8> {
        self.b.spec_bytes()
    }

    /// The id of the cancel transaction this spends.
    pub closed spec fn spec_cancel_txid(self) -> Seq<u8> {
        self.cancel_txid@
    }

    /// The refund address's script-pubkey.
    pub closed spec fn spec_refund_spk(self) -> Seq<u8> {
        self.refund_spk@
    }

    /// The punish timelock of the cancel output this spends.
    pub closed spec fn spec_punish_timelock(self) -> u32 {
        self.punish_timelock
    }

    /// What the refund pays Bob.
    pub closed spec fn spec_amount(self) -> u64 {
        self.amount
    }

    /// The sighash both parties sign.
    pub closed spec fn spec_digest(self) -> Seq<u8> {
        self.digest@
    }

    /// Its transaction id.
    pub closed spec fn spec_txid(self) -> Seq<u8> {
        self.txid@
    }

    #[verifier::type_invariant]
    spec fn wf(self) -> bool {
        &&& 1 <= self.punish_timelock <= 0xffff
        &&& self.cancel_value >= TX_FEE
        &&& self.amount == self.cancel_value - TX_FEE
        &&& self.digest@ == sighash_of(self.cancel_txid@, 0, SEQUENCE_FINAL,
            shared_script_code(self.a.spec_bytes(), self.b.spec_bytes(), self.punish_timelock),
            self.cancel_value, self.refund_spk@, self.amount)
        &&& self.txid@ == txid_of(self.cancel_txid@, 0, SEQUENCE_FINAL, self.refund_spk@,
            self.amount)
    }

    /// Derives the refund transaction from the cancel transaction and
    /// Bob's refund script.
    pub fn new(cancel: &TxCancel, refund_spk: Vec<u8>) -> (r: TxRefund)
        ensures
            r.spec_a() == cancel.spec_a(),
            r.spec_b() == cancel.spec_b(),
            r.spec_cancel_txid() == cancel.spec_txid(),
            r.spec_refund_spk() == refund_spk@,
            r.spec_amount() == cancel.spec_amount() - TX_FEE,
            r.spec_digest() == sighash_of(cancel.spec_txid(), 0, SEQUENCE_FINAL,
                shared_script_code(cancel.spec_a(), cancel.spec_b(),
                    cancel.spec_punish_timelock()), cancel.spec_amount(), refund_spk@,
                (cancel.spec_amount() - TX_FEE) as u64),
            r.spec_txid() == txid_of(cancel.spec_txid(), 0, SEQUENCE_FINAL, refund_spk@,
                (cancel.spec_amount() - TX_FEE) as u64),
    {
        proof {
            use_type_invariant(&*cancel);
        }
        let amount: u64 = cancel.amount - TX_FEE;
        let digest = compute_sighash(&cancel.txid, 0, SEQUENCE_FINAL, &cancel.script_code,
            cancel.amount, &refund_spk, amount);
        let txid = compute_txid(&cancel.txid, 0, SEQUENCE_FINAL, &refund_spk, amount);
        TxRefund {
            a: cancel.a,
            b: cancel.b,
            cancel_txid: cancel.txid,
            cancel_value: cancel.amount,
            punish_timelock: cancel.punish_timelock,
            refund_spk,
            amount,
            digest,
            txid,
        }
    }

    /// The sighash both parties sign.
    pub fn digest(&self) -> (r: [u8; 32])
        ensures
            r@ == self.spec_digest(),
    {
        proof {
            use_type_invariant(&*self);
        }
        self.digest
    }

    /// Its transaction id.
    pub fn txid(&self) -> (r: [u8; 32])
        ensures
            r@ == self.spec_txid(),
    {
        proof {
            use_type_invariant(&*self);
        }
        self.txid
    }

    /// What the refund pays Bob.
    pub fn amount(&self) -> (r: u64)
        ensures
            r == self.spec_amount(),
    {
        proof {
            use_type_invariant(&*self);
        }
        self.amount
    }

    /// Attaches both parties' signatures and serializes the transaction.
    /// Fails with `Unsatisfied` whenever a signature does not verify for
    /// the digest.
    pub fn complete(&self, sig_a: &[u8; 64], sig_b: &[u8; 64]) -> (r: Result<
        Vec<u8>,
        TemplateError,
    >)
        ensures
            !(sig_valid(self.spec_a(), self.spec_digest(), sig_a@)
                && sig_valid(self.spec_b(), self.spec_digest(), sig_b@)) ==> r is Err,
            sig_valid(self.spec_a(), self.spec_digest(), sig_a@)
                && sig_valid(self.spec_b(), self.spec_digest(), sig_b@) ==> r is Ok,
            r matches Ok(bytes) ==> sig_valid(self.spec_a(), self.spec_digest(), sig_a@)
                && sig_valid(self.spec_b(), self.spec_digest(), sig_b@)
                && bytes@ == ser_spend_tx(self.spec_cancel_txid(), 0, SEQUENCE_FINAL,
                    self.spec_refund_spk(), self.spec_amount(),
                    shared_witness(self.spec_a(), self.spec_b(), self.spec_punish_timelock(),
                        sig_a@, sig_b@)),
    {
        proof {
            use_type_invariant(&*self);
        }
        let ab = self.a.bytes();
        let bb = self.b.bytes();
        if !crate::ecdsa::verify_sig(&ab, &self.digest, sig_a) {
            return Err(TemplateError::Unsatisfied);
        }
        if !crate::ecdsa::verify_sig(&bb, &self.digest, sig_b) {
            return Err(TemplateError::Unsatisfied);
        }
        match satisfy_shared_input(&ab, &bb, self.punish_timelock, sig_a, sig_b) {
            Some(w) => Ok(serialize_spend_tx(&self.cancel_txid, 0, SEQUENCE_FINAL,
                &self.refund_spk, self.amount, &w)),
            None => Err(TemplateError::Unsatisfied),
        }
    }
}

/// The transaction with which Alice claims the cancel output for herself
/// once Bob has let the punish timelock pass without refunding.
pub struct TxPunish {
    a: PubKey,
    b: PubKey,
    cancel_txid: [u8; 32],
    cancel_value: u64,
    punish_timelock: u32,
    punish_spk: Vec<u8>,
    amount: u64,
    digest: [u8; 32],
    txid: [u8; 32],
}

impl TxPunish {
    /// Alice's public key.
    pub closed spec fn spec_a(self) -> Seq<u8> {
        self.a.spec_bytes()
    }

    /// Bob's public key.
    pub closed spec fn spec_b(self) -> Seq<u8> {
        self.b.spec_bytes()
    }

    /// The id of the cancel transaction this spends.
    pub closed spec fn spec_cancel_txid(self) -> Seq<u8> {
        self.cancel_txid@
    }

    /// The punish address's script-pubkey.
    pub closed spec fn spec_punish_spk(self) -> Seq<u8> {
        self.punish_spk@
    }

    /// What the punish pays Alice.
    pub closed spec fn spec_amount(self) -> u64 {
        self.amount
    }

    /// The punish timelock: both the spend's sequence number and the
    /// guard on the spent output.
    pub closed spec fn spec_punish_timelock(self) -> u32 {
        self.punish_timelock
    }

    /// The sighash both parties sign.
    pub closed spec fn spec_digest(self) -> Seq<u8> {
        self.digest@
    }

    /// Its transaction id.
    pub closed spec fn spec_txid(self) -> Seq<u8> {
        self.txid@
    }

    #[verifier::type_invariant]
    spec fn wf(self) -> bool {
        &&& 1 <= self.punish_timelock <= 0xffff
        &&& self.cancel_value >= TX_FEE
        &&& self.amount == self.cancel_value - TX_FEE
        &&& self.digest@ == sighash_of(self.cancel_txid@, 0, self.punish_timelock,
            shared_script_code(self.a.spec_bytes(), self.b.spec_bytes(), self.punish_timelock),
            self.cancel_value, self.punish_spk@, self.amount)
        &&& self.txid@ == txid_of(self.cancel_txid@, 0, self.punish_timelock, self.punish_spk@,
            self.amount)
    }

    /// Derives the punish transaction from the cancel transaction,
    /// Alice's punish script and the punish timelock of the cancel
    /// output.
    pub fn new(tx_cancel: &TxCancel, punish_address: &Vec<u8>, punish_timelock: u32) -> (r:
        TxPunish)
        requires
            punish_timelock == tx_cancel.spec_punish_timelock(),
        ensures
            r.spec_a() == tx_cancel.spec_a(),
            r.spec_b() == tx_cancel.spec_b(),
            r.spec_cancel_txid() == tx_cancel.spec_txid(),
            r.spec_punish_spk() == punish_address@,
            r.spec_amount() == tx_cancel.spec_amount() - TX_FEE,
            r.spec_punish_timelock() == punish_timelock,
            r.spec_digest() == sighash_of(tx_cancel.spec_txid(), 0, punish_timelock,
                shared_script_code(tx_cancel.spec_a(), tx_cancel.spec_b(), punish_timelock),
                tx_cancel.spec_amount(), punish_address@,
                (tx_cancel.spec_amount() - TX_FEE) as u64),
            r.spec_txid() == txid_of(tx_cancel.spec_txid(), 0, punish_timelock, punish_address@,
                (tx_cancel.spec_amount() - TX_FEE) as u64),
    {
        proof {
            use_type_invariant(&*tx_cancel);
        }
        let amount: u64 = tx_cancel.amount - TX_FEE;
        let digest = compute_sighash(&tx_cancel.txid, 0, punish_timelock, &tx_cancel.script_code,
            tx_cancel.amount, punish_address, amount);
        let txid = compute_txid(&tx_cancel.txid, 0, punish_timelock, punish_address, amount);
        TxPunish {
            a: tx_cancel.a,
            b: tx_cancel.b,
            cancel_txid: tx_cancel.txid,
            cancel_value: tx_cancel.amount,
            punish_timelock,
            punish_spk: clone_bytes(punish_address),
            amount,
            digest,
            txid,
        }
    }

    /// The sighash both parties sign.
    pub fn digest(&self) -> (r: [u8; 32])
        ensures
            r@ == self.spec_digest(),
    {
        proof {
            use_type_invariant(&*self);
        }
        self.digest
    }

    /// Its transaction id.
    pub fn txid(&self) -> (r: [u8; 32])
        ensures
            r@ == self.spec_txid(),
    {
        proof {
            use_type_invariant(&*self);
        }
        self.txid
    }

    /// What the punish pays Alice.
    pub fn amount(&self) -> (r: u64)
        ensures
            r == self.spec_amount(),
    {
        proof {
            use_type_invariant(&*self);
        }
        self.amount
    }

    /// Signs the digest with Alice's key, attaches Bob's pre-signed
    /// punish signature, and serializes the transaction.  Fails with
    /// `Unsatisfied` whenever either signature does not verify.
    pub fn complete(&self, tx_punish_sig_bob: &[u8; 64], a: &Keypair) -> (r: Result<
        Vec<u8>,
        TemplateError,
    >)
        ensures
            !(sig_valid(self.spec_a(), self.spec_digest(),
                sig_of(a.spec_secret(), self.spec_digest()))
                && sig_valid(self.spec_b(), self.spec_digest(), tx_punish_sig_bob@)) ==> r is Err,
            sig_valid(self.spec_a(), self.spec_digest(),
                sig_of(a.spec_secret(), self.spec_digest()))
                && sig_valid(self.spec_b(), self.spec_digest(), tx_punish_sig_bob@) ==> r is Ok,
            r matches Ok(bytes) ==> sig_valid(self.spec_a(), self.spec_digest(),
                sig_of(a.spec_secret(), self.spec_digest()))
                && sig_valid(self.spec_b(), self.spec_digest(), tx_punish_sig_bob@)
                && bytes@ == ser_spend_tx(self.spec_cancel_txid(), 0, self.spec_punish_timelock(),
                    self.spec_punish_spk(), self.spec_amount(),
                    shared_witness(self.spec_a(), self.spec_b(), self.spec_punish_timelock(),
                        sig_of(a.spec_secret(), self.spec_digest()), tx_punish_sig_bob@)),
    {
        proof {
            use_type_invariant(&*self);
        }
        let sig_a = a.sign(&self.digest);
        let ab = self.a.bytes();
        let bb = self.b.bytes();
        if !crate::ecdsa::verify_sig(&ab, &self.digest, &sig_a) {
            return Err(TemplateError::Unsatisfied);
        }
        if !crate::ecdsa::verify_sig(&bb, &self.digest, tx_punish_sig_bob) {
            return Err(TemplateError::Unsatisfied);
        }
        match satisfy_shared_input(&ab, &bb, self.punish_timelock, &sig_a, tx_punish_sig_bob) {
            Some(w) => Ok(serialize_spend_tx(&self.cancel_txid, 0, self.punish_timelock,
                &self.punish_spk, self.amount, &w)),
            None => Err(TemplateError::Unsatisfied),
        }
    }
}

/// Copies a byte vector.
fn clone_bytes(v: &Vec<u8>) -> (r: Vec<u8>)
    ensures
        r@ == v@,
{
    let mut out: Vec<u8> = Vec::new();
    let mut i: usize = 0;
    while i < v.len()
        invariant
            i <= v.len(),
            out@ == v@.subrange(0, i as int),
        decreases v.len() - i,
    {
        out.push(v[i]);
        i = i + 1;
    }
    proof {
        assert(out@ =~= v@);
    }
    out
}

} // verus!

