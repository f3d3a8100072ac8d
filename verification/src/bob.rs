//! Bob's side of the swap: handshake processing, the durable state
//! machine, and the iterative driver that steps it over a trace of
//! observed events.
//!
//! Bob holds bitcoin and wants monero.  He locks BTC once the handshake
//! establishes the full recovery family, waits for Alice's Monero lock,
//! hands her the adaptor signature for the redeem, and then either
//! watches her redeem on chain (which reveals her scalar half and lets
//! him claim the XMR) or falls back down the timelock ladder: cancel,
//! then refund within the punish window, or be punished.
//!
//! The driver consumes events as plain values; wallets, chain watchers
//! and the transport produce them outside the library.  After every
//! transition the reached state is persisted, so the store never runs
//! ahead of reality and an interrupted swap resumes from its last state.

use vstd::prelude::*;

use crate::crypto::{
    ed_commit_spec, enc_sign_spec, recover_spec, secp_commit_spec, word_of, wrap_add,
    CompletedSignature, DleqProof, EdPoint, EncryptedSignature, Scalar, SecpPoint,
};
use crate::database::{Database, PersistedSwap};
use crate::ecdsa::{sig_of, sig_valid, Keypair, PubKey};
use crate::protocol::{
    valid_swap_response, ExecutionSetupMsg2, ExecutionSetupMsg3, ExecutionSetupMsg4,
    ProtocolError, SwapRequest, SwapResponse, TransferProof,
};
use crate::script::{shared_script_code, shared_spk, sighash_of, txid_of};
use crate::transactions::{TxCancel, TxLock, TxPunish, TxRedeem, TxRefund, SEQUENCE_FINAL};
use crate::{SwapAmounts, TX_FEE};

verus! {

/// Bob's data before the handshake.
#[derive(Clone, Copy)]
pub struct State0 {
    /// Bob's Bitcoin key pair.
    pub b: Keypair,
    /// Bob's public key, serialized.
    pub b_public: [u8; 33],
    /// Bob's half of the Monero spend key.
    pub s_b: Scalar,
    /// Bob's half of the shared view key.
    pub v_b: u64,
    /// Bitcoin amount in satoshi.
    pub btc: u64,
    /// Monero amount in piconero.
    pub xmr: u64,
    /// Script-pubkey of Bob's refund address.
    pub refund_spk: [u8; 34],
    /// The outpoint that funds the lock transaction.
    pub fund_txid: [u8; 32],
    /// Output index of the funding outpoint.
    pub fund_vout: u32,
}

impl State0 {
    /// Gathers Bob's initial data.
    pub fn new(b: Keypair, s_b: Scalar, v_b: u64, btc: u64, xmr: u64, refund_spk: [u8; 34],
        fund_txid: [u8; 32], fund_vout: u32) -> (r: State0)
        requires
            btc >= 2 * TX_FEE,
        ensures
            r.b == b,
            r.b_public@ == b.spec_public(),
            r.s_b == s_b,
            r.v_b == v_b,
            r.btc == btc,
            r.xmr == xmr,
            r.refund_spk == refund_spk,
            r.fund_txid == fund_txid,
            r.fund_vout == fund_vout,
    {
        let b_public = b.public();
        State0 { b, b_public, s_b, v_b, btc, xmr, refund_spk, fund_txid, fund_vout }
    }
}

/// Bob's data once Alice's response is validated: one message processed.
#[derive(Clone, Copy)]
pub struct State1 {
    /// Everything Bob started with.
    pub s0: State0,
    /// Alice's Bitcoin public key.
    pub a: PubKey,
    /// Commitment to `s_a` on the secp256k1 side.
    pub s_a_bitcoin: SecpPoint,
    /// Commitment to `s_a` on the Ed25519 side.
    pub s_a_monero: EdPoint,
    /// Alice's half of the shared view key.
    pub v_a: u64,
    /// Script-pubkey of Alice's redeem address.
    pub redeem_spk: [u8; 34],
    /// Script-pubkey of Alice's punish address.
    pub punish_spk: [u8; 34],
    /// Blocks after lock confirmation until the cancel spend.
    pub cancel_timelock: u32,
    /// Blocks after cancel confirmation until the punish spend.
    pub punish_timelock: u32,
    /// Id of the lock transaction.
    pub lock_txid: [u8; 32],
    /// Id of the cancel transaction.
    pub cancel_txid: [u8; 32],
    /// Sighash of the cancel transaction.
    pub cancel_digest: [u8; 32],
    /// Id of the redeem transaction.
    pub redeem_txid: [u8; 32],
    /// Sighash of the redeem transaction.
    pub redeem_digest: [u8; 32],
    /// Id of the refund transaction.
    pub refund_txid: [u8; 32],
    /// Sighash of the refund transaction.
    pub refund_digest: [u8; 32],
    /// Sighash of the punish transaction.
    pub punish_digest: [u8; 32],
}

/// Bob's data once Alice's partial signatures arrived: the handshake is
/// complete from Bob's side once he answers with his own.
#[derive(Clone, Copy)]
pub struct State2 {
    /// Everything established so far.
    pub inner: State1,
    /// Alice's signature on the cancel transaction.
    pub sig_cancel_a: [u8; 64],
    /// Alice's adaptor-encrypted refund signature.
    pub enc_refund_a: EncryptedSignature,
}

/// Bob's data while the chains are in play; the transfer proof is present
/// once Alice has shown her Monero lock.
#[derive(Clone, Copy)]
pub struct State4 {
    /// Everything established by the handshake.
    pub inner: State2,
    /// Alice's proof of the Monero lock, once received.
    pub transfer_proof: Option<TransferProof>,
}

/// Bob's data after Alice redeemed: her scalar half is recovered.
#[derive(Clone, Copy)]
pub struct State5 {
    /// Everything established so far.
    pub inner: State4,
    /// Alice's half of the Monero spend key, recovered from her redeem.
    pub s_a: Scalar,
}

/// The message Bob answers Alice's response with, as determined by his
/// starting data.
pub open spec fn msg2_of(s0: State0) -> ExecutionSetupMsg2 {
    ExecutionSetupMsg2 {
        b: s0.b_public,
        s_b_bitcoin: secp_commit_spec(s0.s_b.bits),
        s_b_monero: ed_commit_spec(s0.s_b.bits),
        v_b: s0.v_b,
        dleq: DleqProof { witness: s0.s_b.bits },
        refund_spk: s0.refund_spk,
        fund_txid: s0.fund_txid,
        fund_vout: s0.fund_vout,
    }
}

/// Ties every field of a processed state to Bob's starting data and
/// Alice's response: the whole transaction family is a function of the
/// two, which is what lets both parties derive it independently.
pub open spec fn state1_consistent(s1: State1, s0: State0, m: SwapResponse) -> bool {
    &&& s1.s0 == s0
    &&& s1.a.spec_bytes() == m.a@
    &&& s1.s_a_bitcoin == m.s_a_bitcoin
    &&& s1.s_a_monero == m.s_a_monero
    &&& s1.v_a == m.v_a
    &&& s1.redeem_spk == m.redeem_spk
    &&& s1.punish_spk == m.punish_spk
    &&& s1.cancel_timelock == m.cancel_timelock
    &&& s1.punish_timelock == m.punish_timelock
    &&& s1.lock_txid@ == txid_of(s0.fund_txid@, s0.fund_vout, SEQUENCE_FINAL,
        shared_spk(m.a@, s0.b.spec_public(), m.cancel_timelock), s0.btc)
    &&& s1.cancel_txid@ == txid_of(s1.lock_txid@, 0, m.cancel_timelock,
        shared_spk(m.a@, s0.b.spec_public(), m.punish_timelock), (s0.btc - TX_FEE) as u64)
    &&& s1.cancel_digest@ == sighash_of(s1.lock_txid@, 0, m.cancel_timelock,
        shared_script_code(m.a@, s0.b.spec_public(), m.cancel_timelock), s0.btc,
        shared_spk(m.a@, s0.b.spec_public(), m.punish_timelock), (s0.btc - TX_FEE) as u64)
    &&& s1.redeem_txid@ == txid_of(s1.lock_txid@, 0, SEQUENCE_FINAL, m.redeem_spk@,
        (s0.btc - TX_FEE) as u64)
    &&& s1.redeem_digest@ == sighash_of(s1.lock_txid@, 0, SEQUENCE_FINAL,
        shared_script_code(m.a@, s0.b.spec_public(), m.cancel_timelock), s0.btc, m.redeem_spk@,
        (s0.btc - TX_FEE) as u64)
    &&& s1.refund_txid@ == txid_of(s1.cancel_txid@, 0, SEQUENCE_FINAL, s0.refund_spk@,
        (s0.btc - 2 * TX_FEE) as u64)
    &&& s1.refund_digest@ == sighash_of(s1.cancel_txid@, 0, SEQUENCE_FINAL,
        shared_script_code(m.a@, s0.b.spec_public(), m.punish_timelock),
        (s0.btc - TX_FEE) as u64, s0.refund_spk@, (s0.btc - 2 * TX_FEE) as u64)
    &&& s1.punish_digest@ == sighash_of(s1.cancel_txid@, 0, m.punish_timelock,
        shared_script_code(m.a@, s0.b.spec_public(), m.punish_timelock),
        (s0.btc - TX_FEE) as u64, m.punish_spk@, (s0.btc - 2 * TX_FEE) as u64)
}

/// The error Bob reports for an invalid response.
pub open spec fn swap_response_error(m: SwapResponse) -> ProtocolError {
    if !crate::crypto::dleq_verifies(m.dleq, m.s_a_bitcoin, m.s_a_monero) {
        ProtocolError::InvalidProof
    } else if !crate::ecdsa::pubkey_parses(m.a@) {
        ProtocolError::InvalidKey
    } else {
        ProtocolError::InvalidTimelocks
    }
}

/// Copies a 34-byte script into a vector.
pub(crate) fn spk_vec(a: &[u8; 34]) -> (r: Vec<u8>)
    ensures
        r@ == a@,
{
    let mut out: Vec<u8> = Vec::new();
    let mut i: usize = 0;
    while i < 34
        invariant
            i <= 34,
            out@ == a@.subrange(0, i as int),
        decreases 34 - i,
    {
        out.push(a[i]);
        i = i + 1;
    }
    proof {
        assert(out@ =~= a@);
    }
    out
}

/// Validates Alice's response (message 1) and derives the whole
/// transaction family.  Succeeds exactly on valid responses; the reply
/// (message 2) is a function of Bob's starting data.
pub fn process_swap_response(s0: &State0, m: &SwapResponse) -> (r: Result<
    (State1, ExecutionSetupMsg2),
    ProtocolError,
>)
    requires
        s0.btc >= 2 * TX_FEE,
        s0.b_public@ == s0.b.spec_public(),
    ensures
        r is Ok <==> valid_swap_response(*m),
        r matches Ok(p) ==> state1_consistent(p.0, *s0, *m) && p.1 == msg2_of(*s0),
        r matches Err(e) ==> e == swap_response_error(*m),
{
    if !crate::crypto::dleq_verify(&m.dleq, &m.s_a_bitcoin, &m.s_a_monero) {
        return Err(ProtocolError::InvalidProof);
    }
    let a = match PubKey::from_bytes(m.a) {
        Some(k) => k,
        None => { return Err(ProtocolError::InvalidKey); },
    };
    if !(1 <= m.cancel_timelock && m.cancel_timelock <= m.punish_timelock
        && m.punish_timelock <= 0xffff) {
        return Err(ProtocolError::InvalidTimelocks);
    }
    let b_pub = s0.b.public_key();
    let lock = TxLock::new(&a, &b_pub, s0.fund_txid, s0.fund_vout, s0.btc, m.cancel_timelock);
    let cancel = TxCancel::new(&lock, m.punish_timelock);
    let redeem = TxRedeem::new(&lock, spk_vec(&m.redeem_spk));
    let refund = TxRefund::new(&cancel, spk_vec(&s0.refund_spk));
    let punish = TxPunish::new(&cancel, &spk_vec(&m.punish_spk), m.punish_timelock);
    let s1 = State1 {
        s0: *s0,
        a,
        s_a_bitcoin: m.s_a_bitcoin,
        s_a_monero: m.s_a_monero,
        v_a: m.v_a,
        redeem_spk: m.redeem_spk,
        punish_spk: m.punish_spk,
        cancel_timelock: m.cancel_timelock,
        punish_timelock: m.punish_timelock,
        lock_txid: lock.txid(),
        cancel_txid: cancel.txid(),
        cancel_digest: cancel.digest(),
        redeem_txid: redeem.txid(),
        redeem_digest: redeem.digest(),
        refund_txid: refund.txid(),
        refund_digest: refund.digest(),
        punish_digest: punish.digest(),
    };
    let m2 = ExecutionSetupMsg2 {
        b: s0.b_public,
        s_b_bitcoin: crate::crypto::secp_commit(&s0.s_b),
        s_b_monero: crate::crypto::ed_commit(&s0.s_b),
        v_b: s0.v_b,
        dleq: crate::crypto::dleq_prove(&s0.s_b),
        refund_spk: s0.refund_spk,
        fund_txid: s0.fund_txid,
        fund_vout: s0.fund_vout,
    };
    Ok((s1, m2))
}

/// Validates Alice's partial signatures (message 3) and produces Bob's
/// own (message 4).  Succeeds exactly when Alice's cancel signature
/// verifies; Bob's signatures verify under his own key by construction.
pub fn process_msg3(s1: &State1, m: &ExecutionSetupMsg3) -> (r: Result<
    (State2, ExecutionSetupMsg4),
    ProtocolError,
>)
    ensures
        r is Ok <==> sig_valid(s1.a.spec_bytes(), s1.cancel_digest@, m.sig_cancel_a@),
        r matches Ok(p) ==> p.0 == (State2 {
            inner: *s1,
            sig_cancel_a: m.sig_cancel_a,
            enc_refund_a: m.enc_refund_a,
        }) && p.1.sig_cancel_b@ == sig_of(s1.s0.b.spec_secret(), s1.cancel_digest@)
            && sig_valid(s1.s0.b.spec_public(), s1.cancel_digest@, p.1.sig_cancel_b@)
            && p.1.sig_punish_b@ == sig_of(s1.s0.b.spec_secret(), s1.punish_digest@)
            && sig_valid(s1.s0.b.spec_public(), s1.punish_digest@, p.1.sig_punish_b@),
        r matches Err(e) ==> e == ProtocolError::InvalidSignature,
{
    let a_bytes = s1.a.bytes();
    if !crate::ecdsa::verify_sig(&a_bytes, &s1.cancel_digest, &m.sig_cancel_a) {
        return Err(ProtocolError::InvalidSignature);
    }
    let sig_cancel_b = s1.s0.b.sign(&s1.cancel_digest);
    let sig_punish_b = s1.s0.b.sign(&s1.punish_digest);
    let s2 = State2 { inner: *s1, sig_cancel_a: m.sig_cancel_a, enc_refund_a: m.enc_refund_a };
    Ok((s2, ExecutionSetupMsg4 { sig_cancel_b, sig_punish_b }))
}

/// Bob's durable state.  One data structure serves execution and
/// recovery, so a resumed swap continues exactly where it stopped.
#[derive(Clone, Copy)]
pub enum BobState {
    /// Nothing agreed yet; waiting for Alice's response.
    Started {
        /// Bob's starting data.
        state0: State0,
        /// The amounts Bob proposed.
        amounts: SwapAmounts,
        /// Alice's peer id.
        peer_id: u128,
    },
    /// Response validated; waiting for Alice's partial signatures.
    AwaitingMsg3 {
        /// Everything established so far.
        state1: State1,
        /// Alice's peer id.
        peer_id: u128,
    },
    /// Handshake complete; the lock transaction may be broadcast.
    Negotiated(State2, u128),
    /// Bob's bitcoin is locked.
    BtcLocked(State2, u128),
    /// Alice's monero is locked.
    XmrLocked(State4, u128),
    /// The adaptor signature for the redeem is in Alice's hands.
    EncSigSent(State4, u128),
    /// Alice redeemed; her scalar half is recovered.
    BtcRedeemed(State5),
    /// The cancel transaction is on chain.
    Cancelled(State4),
    /// Bob took his bitcoin back.
    BtcRefunded,
    /// Bob claimed the monero.
    XmrRedeemed,
    /// Bob let the punish window pass and lost the locked coins.
    Punished,
    /// The handshake failed before anything was published.
    SafelyAborted,
}

/// Whether the swap has reached one of Bob's four terminal states.
pub open spec fn is_complete_spec(state: BobState) -> bool {
    match state {
        BobState::BtcRefunded | BobState::XmrRedeemed | BobState::Punished
            | BobState::SafelyAborted => true,
        _ => false,
    }
}

/// Whether the swap is over for Bob.
pub fn is_complete(state: &BobState) -> (r: bool)
    ensures
        r == is_complete_spec(*state),
{
    match state {
        BobState::BtcRefunded | BobState::XmrRedeemed | BobState::Punished
            | BobState::SafelyAborted => true,
        _ => false,
    }
}

/// Whether Bob's bitcoin is locked.
pub fn is_btc_locked(state: &BobState) -> (r: bool)
    ensures
        r == state matches BobState::BtcLocked(..),
{
    match state {
        BobState::BtcLocked(..) => true,
        _ => false,
    }
}

/// Whether Alice's monero is locked.
pub fn is_xmr_locked(state: &BobState) -> (r: bool)
    ensures
        r == state matches BobState::XmrLocked(..),
{
    match state {
        BobState::XmrLocked(..) => true,
        _ => false,
    }
}

/// Whether the adaptor signature has been handed to Alice.
pub fn is_encsig_sent(state: &BobState) -> (r: bool)
    ensures
        r == state matches BobState::EncSigSent(..),
{
    match state {
        BobState::EncSigSent(..) => true,
        _ => false,
    }
}

impl BobState {
    /// The state's tag, as the store and the logs name it: each variant
    /// maps to its fixed lowercase tag, independent of the payload.
    pub fn label(&self) -> (r: &'static str)
        ensures
            self matches BobState::Started { .. } ==> r@ == "started"@,
            self matches BobState::AwaitingMsg3 { .. } ==> r@ == "negotiating"@,
            self matches BobState::Negotiated(..) ==> r@ == "negotiated"@,
            self matches BobState::BtcLocked(..) ==> r@ == "btc_locked"@,
            self matches BobState::XmrLocked(..) ==> r@ == "xmr_locked"@,
            self matches BobState::EncSigSent(..) ==> r@ == "encsig_sent"@,
            self matches BobState::BtcRedeemed(..) ==> r@ == "btc_redeemed"@,
            self matches BobState::Cancelled(..) ==> r@ == "cancelled"@,
            self is BtcRefunded ==> r@ == "btc_refunded"@,
            self is XmrRedeemed ==> r@ == "xmr_redeemed"@,
            self is Punished ==> r@ == "punished"@,
            self is SafelyAborted ==> r@ == "safely_aborted"@,
    {
        match self {
            BobState::Started { .. } => "started",
            BobState::AwaitingMsg3 { .. } => "negotiating",
            BobState::Negotiated(..) => "negotiated",
            BobState::BtcLocked(..) => "btc_locked",
            BobState::XmrLocked(..) => "xmr_locked",
            BobState::EncSigSent(..) => "encsig_sent",
            BobState::BtcRedeemed(..) => "btc_redeemed",
            BobState::Cancelled(..) => "cancelled",
            BobState::BtcRefunded => "btc_refunded",
            BobState::XmrRedeemed => "xmr_redeemed",
            BobState::Punished => "punished",
            BobState::SafelyAborted => "safely_aborted",
        }
    }
}

/// What the chains and the peer can tell Bob's driver.
#[derive(Clone, Copy)]
pub enum BobEvent {
    /// Alice answered the swap request (message 1).
    SwapResponseReceived(SwapResponse),
    /// Alice's partial signatures arrived (message 3).
    Msg3Received(ExecutionSetupMsg3),
    /// Alice showed her Monero lock; the second field is the amount, in
    /// piconero, the chain watch observed at the combined address.
    TransferProofReceived(TransferProof, u64),
    /// Alice acknowledged the adaptor signature.
    EncSigAckReceived,
    /// The redeem transaction appeared on chain, with the completed
    /// signature it carries.
    TxRedeemSeen(CompletedSignature),
    /// The cancel timelock has passed.
    CancelTimelockExpired,
    /// The cancel transaction is confirmed and the punish window is
    /// still open.
    RefundWindowOpen,
    /// The punish timelock has passed.
    PunishTimelockExpired,
}

/// What Bob's driver asks the outside to do.
#[derive(Clone, Copy)]
pub enum BobAction {
    /// Propose the amounts to Alice (message 0).
    SendSwapRequest(SwapRequest),
    /// Answer with Bob's public data (message 2).
    SendMsg2(ExecutionSetupMsg2),
    /// Answer with Bob's partial signatures (message 4).
    SendMsg4(ExecutionSetupMsg4),
    /// Publish the lock transaction.
    BroadcastTxLock([u8; 32]),
    /// Hand Alice the adaptor signature for the redeem.
    SendEncSig(EncryptedSignature),
    /// Publish the cancel transaction, or find it already on chain.
    BroadcastTxCancel([u8; 32]),
    /// Publish the refund transaction.
    BroadcastTxRefund([u8; 32]),
    /// Claim the monero with the combined spend key.
    ClaimXmr(Scalar),
}

/// Whether an action moves funds on a chain.  Wire messages do not.
pub open spec fn bob_action_onchain(a: BobAction) -> bool {
    match a {
        BobAction::BroadcastTxLock(..) | BobAction::BroadcastTxCancel(..)
            | BobAction::BroadcastTxRefund(..) | BobAction::ClaimXmr(..) => true,
        _ => false,
    }
}

/// The state a driver runs toward.
#[derive(Clone, Copy, PartialEq, Eq, Structural, Debug)]
pub enum Target {
    /// Stop once the bitcoin is locked.
    BtcLocked,
    /// Stop once the monero is locked.
    XmrLocked,
    /// Stop once the adaptor signature is sent.
    EncSigSent,
    /// Run to a terminal state.
    Complete,
}

/// Whether a state satisfies the target.
pub open spec fn bob_is_target(t: Target, s: BobState) -> bool {
    match t {
        Target::BtcLocked => s matches BobState::BtcLocked(..),
        Target::XmrLocked => s matches BobState::XmrLocked(..),
        Target::EncSigSent => s matches BobState::EncSigSent(..),
        Target::Complete => is_complete_spec(s),
    }
}

/// Checks a state against the target.
pub fn bob_target_reached(t: Target, s: &BobState) -> (r: bool)
    ensures
        r == bob_is_target(t, *s),
{
    match t {
        Target::BtcLocked => is_btc_locked(s),
        Target::XmrLocked => is_xmr_locked(s),
        Target::EncSigSent => is_encsig_sent(s),
        Target::Complete => is_complete(s),
    }
}

/// States past the handshake: from here on the machine is a pure
/// function of state and events.
pub open spec fn post_setup_bob(s: BobState) -> bool {
    match s {
        BobState::Started { .. } | BobState::AwaitingMsg3 { .. } => false,
        _ => true,
    }
}

/// How many driver-initiated steps a state takes before it needs an
/// event again.
pub open spec fn bob_rank(s: BobState) -> int {
    match s {
        BobState::Negotiated(..) | BobState::BtcRedeemed(..) => 1,
        _ => 0,
    }
}

/// The adaptor signature Bob derives for the redeem transaction.
pub open spec fn bob_encsig(s2: State2) -> EncryptedSignature {
    enc_sign_spec(s2.inner.s0.s_b.bits, word_of(s2.inner.redeem_digest@), s2.inner.s_a_bitcoin)
}

/// The transition a state takes on its own, without an event: locking
/// the bitcoin after the handshake, and claiming the monero after the
/// redeem revealed Alice's scalar.
pub open spec fn bob_auto(s: BobState) -> (BobState, Seq<BobAction>) {
    match s {
        BobState::Negotiated(s2, p) => (
            BobState::BtcLocked(s2, p),
            seq![BobAction::BroadcastTxLock(s2.inner.lock_txid)],
        ),
        BobState::BtcRedeemed(s5) => (
            BobState::XmrRedeemed,
            seq![
                BobAction::ClaimXmr(
                    Scalar { bits: wrap_add(s5.s_a.bits, s5.inner.inner.inner.s0.s_b.bits) },
                ),
            ],
        ),
        _ => (s, Seq::empty()),
    }
}

/// The transition a state takes on an event.  Events a state does not
/// expect are ignored: after the lock is on chain the driver never
/// aborts, it waits for the timelock ladder.
pub open spec fn bob_on_event(s: BobState, ev: BobEvent) -> (BobState, Seq<BobAction>) {
    match s {
        BobState::BtcLocked(s2, p) => match ev {
            BobEvent::TransferProofReceived(tp, amount) => if amount == s2.inner.s0.xmr {
                (
                    BobState::XmrLocked(State4 { inner: s2, transfer_proof: Some(tp) }, p),
                    seq![BobAction::SendEncSig(bob_encsig(s2))],
                )
            } else {
                (s, Seq::empty())
            },
            BobEvent::CancelTimelockExpired => (
                BobState::Cancelled(State4 { inner: s2, transfer_proof: None }),
                seq![BobAction::BroadcastTxCancel(s2.inner.cancel_txid)],
            ),
            _ => (s, Seq::empty()),
        },
        BobState::XmrLocked(s4, p) => match ev {
            BobEvent::EncSigAckReceived => (BobState::EncSigSent(s4, p), Seq::empty()),
            BobEvent::CancelTimelockExpired => (
                BobState::Cancelled(s4),
                seq![BobAction::BroadcastTxCancel(s4.inner.inner.cancel_txid)],
            ),
            _ => (s, Seq::empty()),
        },
        BobState::EncSigSent(s4, p) => match ev {
            BobEvent::TxRedeemSeen(sig) => (
                BobState::BtcRedeemed(
                    State5 { inner: s4, s_a: recover_spec(bob_encsig(s4.inner), sig) },
                ),
                Seq::empty(),
            ),
            BobEvent::CancelTimelockExpired => (
                BobState::Cancelled(s4),
                seq![BobAction::BroadcastTxCancel(s4.inner.inner.cancel_txid)],
            ),
            _ => (s, Seq::empty()),
        },
        BobState::Cancelled(s4) => match ev {
            BobEvent::RefundWindowOpen => (
                BobState::BtcRefunded,
                seq![BobAction::BroadcastTxRefund(s4.inner.inner.refund_txid)],
            ),
            BobEvent::PunishTimelockExpired => (BobState::Punished, Seq::empty()),
            _ => (s, Seq::empty()),
        },
        _ => (s, Seq::empty()),
    }
}

/// The whole run of Bob's machine from a state over a trace of events,
/// toward a target: what the driver computes and in which order it acts.
pub open spec fn bob_run(s: BobState, target: Target, events: Seq<BobEvent>) -> (
    BobState,
    Seq<BobAction>,
)
    decreases events.len(), bob_rank(s),
{
    if bob_is_target(target, s) || is_complete_spec(s) {
        (s, Seq::empty())
    } else if bob_rank(s) > 0 {
        let (s1, a1) = bob_auto(s);
        let (s2, a2) = bob_run(s1, target, events);
        (s2, a1 + a2)
    } else if events.len() == 0 {
        (s, Seq::empty())
    } else {
        let (s1, a1) = bob_on_event(s, events[0]);
        let (s2, a2) = bob_run(s1, target, events.drop_first());
        (s2, a1 + a2)
    }
}

/// Running a trace in two sittings reaches the same state as running it
/// in one: what the first run leaves behind, the second picks up.
pub proof fn lemma_bob_run_append(s: BobState, target: Target, e1: Seq<BobEvent>,
    e2: Seq<BobEvent>)
    ensures
        bob_run(s, target, e1 + e2).0 == bob_run(bob_run(s, target, e1).0, target, e2).0,
    decreases e1.len(), bob_rank(s),
{
    if bob_is_target(target, s) || is_complete_spec(s) {
    } else if bob_rank(s) > 0 {
        let (s1, _) = bob_auto(s);
        lemma_bob_run_append(s1, target, e1, e2);
    } else if e1.len() == 0 {
        assert(e1 + e2 =~= e2);
    } else {
        let (s1, _) = bob_on_event(s, e1[0]);
        assert((e1 + e2)[0] == e1[0]);
        assert((e1 + e2).drop_first() =~= e1.drop_first() + e2);
        lemma_bob_run_append(s1, target, e1.drop_first(), e2);
    }
}

/// Resumption idempotence: interrupt the driver after any prefix of the
/// trace, restart it from the state it persisted, and the remaining
/// events drive it to the very state an uninterrupted run reaches.
pub proof fn lemma_bob_resumption(s: BobState, target: Target, events: Seq<BobEvent>, k: int)
    requires
        0 <= k <= events.len(),
    ensures
        bob_run(bob_run(s, target, events.take(k)).0, target, events.skip(k)).0
            == bob_run(s, target, events).0,
{
    lemma_bob_run_append(s, target, events.take(k), events.skip(k));
    assert(events.take(k) + events.skip(k) =~= events);
}

/// One unfolding of `bob_run` at a state that is done.
proof fn lemma_bob_run_done(s: BobState, t: Target, evs: Seq<BobEvent>)
    requires
        bob_is_target(t, s) || is_complete_spec(s),
    ensures
        bob_run(s, t, evs) == (s, Seq::<BobAction>::empty()),
{
}

/// One unfolding of `bob_run` at a state that steps on its own.
proof fn lemma_bob_run_auto_step(s: BobState, t: Target, evs: Seq<BobEvent>)
    requires
        !bob_is_target(t, s),
        !is_complete_spec(s),
        bob_rank(s) > 0,
    ensures
        bob_run(s, t, evs).0 == bob_run(bob_auto(s).0, t, evs).0,
        bob_run(s, t, evs).1 == bob_auto(s).1 + bob_run(bob_auto(s).0, t, evs).1,
{
}

/// One unfolding of `bob_run` at a state that consumes an event.
proof fn lemma_bob_run_event_step(s: BobState, t: Target, evs: Seq<BobEvent>)
    requires
        !bob_is_target(t, s),
        !is_complete_spec(s),
        bob_rank(s) == 0,
        evs.len() > 0,
    ensures
        bob_run(s, t, evs).0 == bob_run(bob_on_event(s, evs[0]).0, t, evs.drop_first()).0,
        bob_run(s, t, evs).1 == bob_on_event(s, evs[0]).1
            + bob_run(bob_on_event(s, evs[0]).0, t, evs.drop_first()).1,
{
}

/// One unfolding of `bob_run` at a state whose events ran out.
proof fn lemma_bob_run_stuck(s: BobState, t: Target, evs: Seq<BobEvent>)
    requires
        !bob_is_target(t, s),
        !is_complete_spec(s),
        bob_rank(s) == 0,
        evs.len() == 0,
    ensures
        bob_run(s, t, evs) == (s, Seq::<BobAction>::empty()),
{
}

/// Drives Bob's machine over the events until the target, a terminal
/// state, or the end of the trace, persisting every reached state.
///
/// For a start past the handshake the outcome is exactly the machine's
/// run.  The store always ends holding the state that was reached; and a
/// run that ends safely aborted has performed no on-chain action, so an
/// abort before the lock costs neither party anything but fees never
/// spent.
#[verifier::rlimit(100)]
pub fn run_until(state: BobState, is_target_state: Target, events: &Vec<BobEvent>,
    db: &mut Database<PersistedSwap>, swap_id: u128) -> (r: (BobState, Vec<BobAction>))
    requires
        state matches BobState::Started { state0, .. } ==> state0.btc >= 2 * TX_FEE
            && state0.b_public@ == state0.b.spec_public(),
    ensures
        post_setup_bob(state) ==> r.0 == bob_run(state, is_target_state, events@).0,
        post_setup_bob(state) ==> r.1@ == bob_run(state, is_target_state, events@).1,
        final(db).swaps() == old(db).swaps().insert(swap_id, PersistedSwap::Bob(r.0)),
        r.0 is SafelyAborted ==> forall|j: int|
            0 <= j < r.1@.len() ==> !bob_action_onchain(#[trigger] r.1@[j]),
        (state matches BobState::Started { .. } && events@.len() > 0 && !(events@[0]
            matches BobEvent::SwapResponseReceived(m) && valid_swap_response(m)))
            ==> r.0 is SafelyAborted,
        (state matches BobState::AwaitingMsg3 { state1, .. } && events@.len() > 0
            && !(events@[0] matches BobEvent::Msg3Received(m)
                && sig_valid(state1.a.spec_bytes(), state1.cancel_digest@, m.sig_cancel_a@)))
            ==> r.0 is SafelyAborted,
        state matches BobState::Started { state0, amounts, peer_id } ==> (events@.len() == 1
            ==> (events@[0] matches BobEvent::SwapResponseReceived(m) ==> (valid_swap_response(m)
            ==> (r.0 matches BobState::AwaitingMsg3 { state1, peer_id: p2 } && p2 == peer_id
                && state1_consistent(state1, state0, m)) && r.1@.len() == 2
                && r.1@[0] == BobAction::SendSwapRequest(SwapRequest {
                    btc: amounts.btc,
                    xmr: amounts.xmr,
                })
                && (r.1@[1] matches BobAction::SendMsg2(m2) && m2 == msg2_of(state0))))),
        state matches BobState::AwaitingMsg3 { state1, peer_id } ==> (events@.len() > 0
            ==> (events@[0] matches BobEvent::Msg3Received(m3)
            ==> (sig_valid(state1.a.spec_bytes(), state1.cancel_digest@, m3.sig_cancel_a@)
            ==> ({
                let s2 = State2 {
                    inner: state1,
                    sig_cancel_a: m3.sig_cancel_a,
                    enc_refund_a: m3.enc_refund_a,
                };
                let cont = bob_run(BobState::Negotiated(s2, peer_id), is_target_state,
                    events@.skip(1));
                cont.0 == r.0 && cont.1 == r.1@.skip(1) && r.1@.len() >= 1
                    && (r.1@[0] matches BobAction::SendMsg4(m4)
                        && m4.sig_cancel_b@ == sig_of(state1.s0.b.spec_secret(),
                            state1.cancel_digest@)
                        && m4.sig_punish_b@ == sig_of(state1.s0.b.spec_secret(),
                            state1.punish_digest@))
            })))),
{
    let mut cur = state;
    let mut acts: Vec<BobAction> = Vec::new();
    let mut i: usize = 0;
    db.insert_latest_state(swap_id, PersistedSwap::Bob(cur));
    proof {
        assert(events@.skip(0) =~= events@);
        if post_setup_bob(state) {
            assert(Seq::<BobAction>::empty() + bob_run(cur, is_target_state, events@).1
                =~= bob_run(cur, is_target_state, events@).1);
        }
    }
    loop
        invariant_except_break
            i <= events@.len(),
            db.swaps() == old(db).swaps().insert(swap_id, PersistedSwap::Bob(cur)),
            cur matches BobState::Started { state0, .. } ==> state0.btc >= 2 * TX_FEE
                && state0.b_public@ == state0.b.spec_public(),
            cur matches BobState::Started { .. } ==> cur == state && i == 0 && acts@.len() == 0,
            (state matches BobState::AwaitingMsg3 { .. } && cur matches BobState::AwaitingMsg3 {
                .. }) ==> (cur == state && i == 0),
            (state matches BobState::Started { .. } && events@.len() > 0 && !(events@[0]
                matches BobEvent::SwapResponseReceived(m) && valid_swap_response(m)))
                ==> (cur matches BobState::Started { .. } || cur is SafelyAborted),
            (state matches BobState::AwaitingMsg3 { state1, .. } && events@.len() > 0
                && !(events@[0] matches BobEvent::Msg3Received(m)
                    && sig_valid(state1.a.spec_bytes(), state1.cancel_digest@,
                        m.sig_cancel_a@))) ==> (cur matches BobState::AwaitingMsg3 { .. }
                || cur is SafelyAborted),
            state matches BobState::Started { state0, amounts, peer_id }
                ==> (events@.len() == 1
                ==> (events@[0] matches BobEvent::SwapResponseReceived(m)
                ==> (valid_swap_response(m) ==> ((cur == state && i == 0 && acts@.len() == 0)
                || ((cur matches BobState::AwaitingMsg3 { state1, peer_id: p2 }
                    && p2 == peer_id && state1_consistent(state1, state0, m)) && i == 1
                    && acts@.len() == 2
                    && acts@[0] == BobAction::SendSwapRequest(SwapRequest {
                        btc: amounts.btc,
                        xmr: amounts.xmr,
                    })
                    && (acts@[1] matches BobAction::SendMsg2(m2) && m2 == msg2_of(state0))))))),
            state matches BobState::AwaitingMsg3 { state1, peer_id } ==> (events@.len() > 0
                ==> (events@[0] matches BobEvent::Msg3Received(m3)
                ==> (sig_valid(state1.a.spec_bytes(), state1.cancel_digest@, m3.sig_cancel_a@)
                ==> ((cur == state && i == 0 && acts@.len() == 0) || ({
                    let s2 = State2 {
                        inner: state1,
                        sig_cancel_a: m3.sig_cancel_a,
                        enc_refund_a: m3.enc_refund_a,
                    };
                    let anchor = BobState::Negotiated(s2, peer_id);
                    post_setup_bob(cur) && 1 <= i && acts@.len() >= 1
                        && (acts@[0] matches BobAction::SendMsg4(m4)
                            && m4.sig_cancel_b@ == sig_of(state1.s0.b.spec_secret(),
                                state1.cancel_digest@)
                            && m4.sig_punish_b@ == sig_of(state1.s0.b.spec_secret(),
                                state1.punish_digest@))
                        && bob_run(anchor, is_target_state, events@.skip(1)).0
                            == bob_run(cur, is_target_state, events@.skip(i as int)).0
                        && bob_run(anchor, is_target_state, events@.skip(1)).1
                            == acts@.skip(1) + bob_run(cur, is_target_state,
                                events@.skip(i as int)).1
                }))))),
            post_setup_bob(state) ==> post_setup_bob(cur),
            post_setup_bob(state) ==> bob_run(state, is_target_state, events@).0
                == bob_run(cur, is_target_state, events@.skip(i as int)).0,
            post_setup_bob(state) ==> bob_run(state, is_target_state, events@).1
                == acts@ + bob_run(cur, is_target_state, events@.skip(i as int)).1,
            (cur matches BobState::Started { .. } || cur matches BobState::AwaitingMsg3 { .. }
                || cur is SafelyAborted) ==> forall|j: int|
                0 <= j < acts@.len() ==> !bob_action_onchain(#[trigger] acts@[j]),
        ensures
            db.swaps() == old(db).swaps().insert(swap_id, PersistedSwap::Bob(cur)),
            post_setup_bob(state) ==> bob_run(state, is_target_state, events@).0 == cur,
            post_setup_bob(state) ==> bob_run(state, is_target_state, events@).1 == acts@,
            cur is SafelyAborted ==> forall|j: int|
                0 <= j < acts@.len() ==> !bob_action_onchain(#[trigger] acts@[j]),
            (state matches BobState::Started { .. } && events@.len() > 0 && !(events@[0]
                matches BobEvent::SwapResponseReceived(m) && valid_swap_response(m)))
                ==> cur is SafelyAborted,
            (state matches BobState::AwaitingMsg3 { state1, .. } && events@.len() > 0
                && !(events@[0] matches BobEvent::Msg3Received(m)
                    && sig_valid(state1.a.spec_bytes(), state1.cancel_digest@,
                        m.sig_cancel_a@))) ==> cur is SafelyAborted,
            state matches BobState::Started { state0, amounts, peer_id }
                ==> (events@.len() == 1
                ==> (events@[0] matches BobEvent::SwapResponseReceived(m)
                ==> (valid_swap_response(m) ==> (cur matches BobState::AwaitingMsg3 {
                    state1,
                    peer_id: p2,
                } && p2 == peer_id && state1_consistent(state1, state0, m))
                && acts@.len() == 2
                && acts@[0] == BobAction::SendSwapRequest(SwapRequest {
                    btc: amounts.btc,
                    xmr: amounts.xmr,
                })
                && (acts@[1] matches BobAction::SendMsg2(m2) && m2 == msg2_of(state0))))),
            state matches BobState::AwaitingMsg3 { state1, peer_id } ==> (events@.len() > 0
                ==> (events@[0] matches BobEvent::Msg3Received(m3)
                ==> (sig_valid(state1.a.spec_bytes(), state1.cancel_digest@, m3.sig_cancel_a@)
                ==> ({
                    let s2 = State2 {
                        inner: state1,
                        sig_cancel_a: m3.sig_cancel_a,
                        enc_refund_a: m3.enc_refund_a,
                    };
                    let cont = bob_run(BobState::Negotiated(s2, peer_id), is_target_state,
                        events@.skip(1));
                    cont.0 == cur && cont.1 == acts@.skip(1) && acts@.len() >= 1
                        && (acts@[0] matches BobAction::SendMsg4(m4)
                            && m4.sig_cancel_b@ == sig_of(state1.s0.b.spec_secret(),
                                state1.cancel_digest@)
                            && m4.sig_punish_b@ == sig_of(state1.s0.b.spec_secret(),
                                state1.punish_digest@))
                })))),
        decreases events@.len() - i, bob_rank(cur),
    {
        let ghost cur0 = cur;
        let ghost i0 = i as int;
        let ghost acts0 = acts@;
        if bob_target_reached(is_target_state, &cur) || is_complete(&cur) {
            proof {
                lemma_bob_run_done(cur, is_target_state, events@.skip(i0));
                assert(acts@ + Seq::<BobAction>::empty() =~= acts@);
                assert(acts@.skip(1) + Seq::<BobAction>::empty() =~= acts@.skip(1));
            }
            break;
        }
        match cur {
            BobState::Started { state0, amounts, peer_id } => {
                if i == events.len() {
                    break;
                }
                acts.push(BobAction::SendSwapRequest(SwapRequest {
                    btc: amounts.btc,
                    xmr: amounts.xmr,
                }));
                let ev = events[i];
                i = i + 1;
                match ev {
                    BobEvent::SwapResponseReceived(m) => {
                        match process_swap_response(&state0, &m) {
                            Ok((s1, m2)) => {
                                acts.push(BobAction::SendMsg2(m2));
                                cur = BobState::AwaitingMsg3 { state1: s1, peer_id };
                            },
                            Err(_) => {
                                cur = BobState::SafelyAborted;
                            },
                        }
                    },
                    _ => {
                        cur = BobState::SafelyAborted;
                    },
                }
                db.insert_latest_state(swap_id, PersistedSwap::Bob(cur));
                proof {
                    assert(db.swaps() =~= old(db).swaps().insert(swap_id,
                        PersistedSwap::Bob(cur)));
                }
            },
            BobState::AwaitingMsg3 { state1, peer_id } => {
                if i == events.len() {
                    break;
                }
                let ev = events[i];
                i = i + 1;
                match ev {
                    BobEvent::Msg3Received(m) => {
                        match process_msg3(&state1, &m) {
                            Ok((s2, m4)) => {
                                acts.push(BobAction::SendMsg4(m4));
                                cur = BobState::Negotiated(s2, peer_id);
                            },
                            Err(_) => {
                                cur = BobState::SafelyAborted;
                            },
                        }
                    },
                    _ => {
                        cur = BobState::SafelyAborted;
                    },
                }
                db.insert_latest_state(swap_id, PersistedSwap::Bob(cur));
                proof {
                    assert(db.swaps() =~= old(db).swaps().insert(swap_id,
                        PersistedSwap::Bob(cur)));
                    if acts0.len() == 0 && acts@.len() == 1 {
                        assert(acts@.skip(1) =~= Seq::<BobAction>::empty());
                    }
                    assert(Seq::<BobAction>::empty() + bob_run(cur, is_target_state,
                        events@.skip(i as int)).1 =~= bob_run(cur, is_target_state,
                        events@.skip(i as int)).1);
                }
            },
            BobState::Negotiated(s2, peer_id) => {
                acts.push(BobAction::BroadcastTxLock(s2.inner.lock_txid));
                cur = BobState::BtcLocked(s2, peer_id);
                db.insert_latest_state(swap_id, PersistedSwap::Bob(cur));
                proof {
                    assert(db.swaps() =~= old(db).swaps().insert(swap_id,
                        PersistedSwap::Bob(cur)));
                    lemma_bob_run_auto_step(cur0, is_target_state, events@.skip(i0));
                    assert(acts@ =~= acts0 + seq![
                        BobAction::BroadcastTxLock(s2.inner.lock_txid),
                    ]);
                    assert(acts0 + (bob_auto(cur0).1 + bob_run(cur, is_target_state,
                        events@.skip(i0)).1) =~= acts@ + bob_run(cur, is_target_state,
                        events@.skip(i0)).1);
                    if acts0.len() >= 1 {
                        assert(acts@[0] == acts0[0]);
                        assert((acts0 + bob_auto(cur0).1).skip(1) =~= acts0.skip(1)
                            + bob_auto(cur0).1);
                        assert(acts0.skip(1) + (bob_auto(cur0).1 + bob_run(cur,
                            is_target_state, events@.skip(i0)).1) =~= (acts0.skip(1)
                            + bob_auto(cur0).1) + bob_run(cur, is_target_state,
                            events@.skip(i0)).1);
                    }
                }
            },
            BobState::BtcRedeemed(s5) => {
                let spend_key = crate::crypto::scalar_add(&s5.s_a, &s5.inner.inner.inner.s0.s_b);
                acts.push(BobAction::ClaimXmr(spend_key));
                cur = BobState::XmrRedeemed;
                db.insert_latest_state(swap_id, PersistedSwap::Bob(cur));
                proof {
                    assert(db.swaps() =~= old(db).swaps().insert(swap_id,
                        PersistedSwap::Bob(cur)));
                    lemma_bob_run_auto_step(cur0, is_target_state, events@.skip(i0));
                    assert(acts@ =~= acts0 + seq![BobAction::ClaimXmr(spend_key)]);
                    assert(acts0 + (bob_auto(cur0).1 + bob_run(cur, is_target_state,
                        events@.skip(i0)).1) =~= acts@ + bob_run(cur, is_target_state,
                        events@.skip(i0)).1);
                    if acts0.len() >= 1 {
                        assert(acts@[0] == acts0[0]);
                        assert((acts0 + bob_auto(cur0).1).skip(1) =~= acts0.skip(1)
                            + bob_auto(cur0).1);
                        assert(acts0.skip(1) + (bob_auto(cur0).1 + bob_run(cur,
                            is_target_state, events@.skip(i0)).1) =~= (acts0.skip(1)
                            + bob_auto(cur0).1) + bob_run(cur, is_target_state,
                            events@.skip(i0)).1);
                    }
                }
            },
            _ => {
                if i == events.len() {
                    proof {
                        lemma_bob_run_stuck(cur, is_target_state, events@.skip(i0));
                        assert(acts@ + Seq::<BobAction>::empty() =~= acts@);
                        assert(acts@.skip(1) + Seq::<BobAction>::empty() =~= acts@.skip(1));
                    }
                    break;
                }
                let ev = events[i];
                i = i + 1;
                match cur {
                    BobState::BtcLocked(s2, peer_id) => match ev {
                        BobEvent::TransferProofReceived(tp, amount) => {
                            if amount == s2.inner.s0.xmr {
                                let e = crate::crypto::enc_sign(&s2.inner.s0.s_b,
                                    crate::crypto::word_of_bytes(&s2.inner.redeem_digest),
                                    &s2.inner.s_a_bitcoin);
                                acts.push(BobAction::SendEncSig(e));
                                cur = BobState::XmrLocked(State4 {
                                    inner: s2,
                                    transfer_proof: Some(tp),
                                }, peer_id);
                            }
                        },
                        BobEvent::CancelTimelockExpired => {
                            acts.push(BobAction::BroadcastTxCancel(s2.inner.cancel_txid));
                            cur = BobState::Cancelled(State4 {
                                inner: s2,
                                transfer_proof: None,
                            });
                        },
                        _ => {},
                    },
                    BobState::XmrLocked(s4, peer_id) => match ev {
                        BobEvent::EncSigAckReceived => {
                            cur = BobState::EncSigSent(s4, peer_id);
                        },
                        BobEvent::CancelTimelockExpired => {
                            acts.push(BobAction::BroadcastTxCancel(s4.inner.inner.cancel_txid));
                            cur = BobState::Cancelled(s4);
                        },
                        _ => {},
                    },
                    BobState::EncSigSent(s4, peer_id) => match ev {
                        BobEvent::TxRedeemSeen(sig) => {
                            let e = crate::crypto::enc_sign(&s4.inner.inner.s0.s_b,
                                crate::crypto::word_of_bytes(&s4.inner.inner.redeem_digest),
                                &s4.inner.inner.s_a_bitcoin);
                            let s_a = crate::crypto::recover(&e, &sig);
                            cur = BobState::BtcRedeemed(State5 { inner: s4, s_a });
                        },
                        BobEvent::CancelTimelockExpired => {
                            acts.push(BobAction::BroadcastTxCancel(s4.inner.inner.cancel_txid));
                            cur = BobState::Cancelled(s4);
                        },
                        _ => {},
                    },
                    BobState::Cancelled(s4) => match ev {
                        BobEvent::RefundWindowOpen => {
                            acts.push(BobAction::BroadcastTxRefund(s4.inner.inner.refund_txid));
                            cur = BobState::BtcRefunded;
                        },
                        BobEvent::PunishTimelockExpired => {
                            cur = BobState::Punished;
                        },
                        _ => {},
                    },
                    _ => {},
                }
                db.insert_latest_state(swap_id, PersistedSwap::Bob(cur));
                proof {
                    assert(db.swaps() =~= old(db).swaps().insert(swap_id,
                        PersistedSwap::Bob(cur)));
                    let evs = events@.skip(i0);
                    assert(evs[0] == events@[i0]);
                    assert(evs.drop_first() =~= events@.skip(i0 + 1));
                    lemma_bob_run_event_step(cur0, is_target_state, evs);
                    assert(bob_on_event(cur0, evs[0]).0 == cur);
                    assert(acts@ =~= acts0 + bob_on_event(cur0, evs[0]).1);
                    assert(acts0 + (bob_on_event(cur0, evs[0]).1 + bob_run(cur, is_target_state,
                        evs.drop_first()).1) =~= acts@ + bob_run(cur, is_target_state,
                        evs.drop_first()).1);
                    if acts0.len() >= 1 {
                        assert(acts@[0] == acts0[0]);
                        assert((acts0 + bob_on_event(cur0, evs[0]).1).skip(1) =~= acts0.skip(1)
                            + bob_on_event(cur0, evs[0]).1);
                        assert(acts0.skip(1) + (bob_on_event(cur0, evs[0]).1 + bob_run(cur,
                            is_target_state, evs.drop_first()).1) =~= (acts0.skip(1)
                            + bob_on_event(cur0, evs[0]).1) + bob_run(cur, is_target_state,
                            evs.drop_first()).1);
                    }
                }
            },
        }
    }
    proof {
        if post_setup_bob(state) {
            assert(acts@ + Seq::<BobAction>::empty() =~= acts@);
        }
    }
    (cur, acts)
}

/// Runs Bob's swap to a terminal state: the driver with the target set
/// to completion.
pub fn swap(state: BobState, events: &Vec<BobEvent>, db: &mut Database<PersistedSwap>,
    swap_id: u128) -> (r: (BobState, Vec<BobAction>))
    requires
        state matches BobState::Started { state0, .. } ==> state0.btc >= 2 * TX_FEE
            && state0.b_public@ == state0.b.spec_public(),
    ensures
        post_setup_bob(state) ==> r.0 == bob_run(state, Target::Complete, events@).0,
        post_setup_bob(state) ==> r.1@ == bob_run(state, Target::Complete, events@).1,
        final(db).swaps() == old(db).swaps().insert(swap_id, PersistedSwap::Bob(r.0)),
        r.0 is SafelyAborted ==> forall|j: int|
            0 <= j < r.1@.len() ==> !bob_action_onchain(#[trigger] r.1@[j]),
        (state matches BobState::Started { .. } && events@.len() > 0 && !(events@[0]
            matches BobEvent::SwapResponseReceived(m) && valid_swap_response(m)))
            ==> r.0 is SafelyAborted,
        state matches BobState::Started { state0, amounts, peer_id } ==> (events@.len() == 1
            ==> (events@[0] matches BobEvent::SwapResponseReceived(m) ==> (valid_swap_response(m)
            ==> (r.0 matches BobState::AwaitingMsg3 { state1, peer_id: p2 } && p2 == peer_id
                && state1_consistent(state1, state0, m) && r.1@.len() == 2
                && r.1@[0] == BobAction::SendSwapRequest(SwapRequest {
                    btc: amounts.btc,
                    xmr: amounts.xmr,
                })
                && (r.1@[1] matches BobAction::SendMsg2(m2) && m2 == msg2_of(state0)))))),
        state matches BobState::AwaitingMsg3 { state1, peer_id } ==> (events@.len() > 0
            ==> (events@[0] matches BobEvent::Msg3Received(m3)
            ==> (sig_valid(state1.a.spec_bytes(), state1.cancel_digest@, m3.sig_cancel_a@)
            ==> ({
                let s2 = State2 {
                    inner: state1,
                    sig_cancel_a: m3.sig_cancel_a,
                    enc_refund_a: m3.enc_refund_a,
                };
                let cont = bob_run(BobState::Negotiated(s2, peer_id), Target::Complete,
                    events@.skip(1));
                cont.0 == r.0 && cont.1 == r.1@.skip(1) && r.1@.len() >= 1
                    && (r.1@[0] matches BobAction::SendMsg4(m4)
                        && m4.sig_cancel_b@ == sig_of(state1.s0.b.spec_secret(),
                            state1.cancel_digest@)
                        && m4.sig_punish_b@ == sig_of(state1.s0.b.spec_secret(),
                            state1.punish_digest@))
            })))),
{
    run_until(state, Target::Complete, events, db, swap_id)
}

/// Honest redeem, Bob's side: if Alice publishes the completion of Bob's
/// own adaptor signature, Bob's driver recovers her scalar half and ends
/// with the monero claimed under the combined spend key.
pub proof fn lemma_bob_honest_redeem(s4: State4, p: u128, s_a: Scalar)
    ensures
        ({
            let sig = crate::crypto::decrypt_spec(bob_encsig(s4.inner), s_a.bits);
            let (fs, acts) = bob_run(BobState::EncSigSent(s4, p), Target::Complete,
                seq![BobEvent::TxRedeemSeen(sig)]);
            fs == BobState::XmrRedeemed && acts == seq![
                BobAction::ClaimXmr(Scalar { bits: wrap_add(s_a.bits, s4.inner.inner.s0.s_b.bits) }),
            ]
        }),
{
    reveal_with_fuel(bob_run, 6);
    let sig = crate::crypto::decrypt_spec(bob_encsig(s4.inner), s_a.bits);
    crate::crypto::lemma_wrap_roundtrip(bob_encsig(s4.inner).presig, s_a.bits);
    let evs = seq![BobEvent::TxRedeemSeen(sig)];
    let (s1, a1) = bob_on_event(BobState::EncSigSent(s4, p), evs[0]);
    assert(recover_spec(bob_encsig(s4.inner), sig) == s_a);
    assert(evs.drop_first().len() == 0);
    let (fs, acts) = bob_run(BobState::EncSigSent(s4, p), Target::Complete, evs);
    assert(fs == BobState::XmrRedeemed);
    assert(acts =~= seq![
        BobAction::ClaimXmr(Scalar { bits: wrap_add(s_a.bits, s4.inner.inner.s0.s_b.bits) }),
    ]);
}

/// Refund safety, Bob's side: once the cancel transaction is on chain,
/// as long as the punish window is open the driver publishes the refund
/// and ends with the bitcoin recovered.
pub proof fn lemma_bob_refund(s4: State4)
    ensures
        ({
            let (fs, acts) = bob_run(BobState::Cancelled(s4), Target::Complete,
                seq![BobEvent::RefundWindowOpen]);
            fs == BobState::BtcRefunded && acts == seq![
                BobAction::BroadcastTxRefund(s4.inner.inner.refund_txid),
            ]
        }),
{
    reveal_with_fuel(bob_run, 6);
    let evs = seq![BobEvent::RefundWindowOpen];
    let (fs, acts) = bob_run(BobState::Cancelled(s4), Target::Complete, evs);
    assert(evs.drop_first().len() == 0);
    assert(fs == BobState::BtcRefunded);
    assert(acts =~= seq![BobAction::BroadcastTxRefund(s4.inner.inner.refund_txid)]);
}

/// Determinism of transactions: when the messages carried what each
/// party actually holds, Alice and Bob derive identical transaction ids
/// and sighashes for the whole family, each on their own.
pub proof fn lemma_tx_determinism(bs1: State1, b0: State0, m1: SwapResponse,
    as3: crate::alice::State3, a0: crate::alice::State0, m2: ExecutionSetupMsg2)
    requires
        state1_consistent(bs1, b0, m1),
        crate::alice::state3_consistent(as3, a0, m2),
        m1.a@ == a0.a.spec_public(),
        m1.redeem_spk == a0.redeem_spk,
        m1.punish_spk == a0.punish_spk,
        m1.cancel_timelock == a0.cancel_timelock,
        m1.punish_timelock == a0.punish_timelock,
        m2.b@ == b0.b.spec_public(),
        m2.refund_spk == b0.refund_spk,
        m2.fund_txid == b0.fund_txid,
        m2.fund_vout == b0.fund_vout,
        a0.btc == b0.btc,
    ensures
        bs1.lock_txid@ == as3.lock_txid@,
        bs1.cancel_txid@ == as3.cancel_txid@,
        bs1.cancel_digest@ == as3.cancel_digest@,
        bs1.redeem_txid@ == as3.redeem_txid@,
        bs1.redeem_digest@ == as3.redeem_digest@,
        bs1.refund_txid@ == as3.refund_txid@,
        bs1.refund_digest@ == as3.refund_digest@,
        bs1.punish_digest@ == as3.punish_digest@,
{
}

} // verus!
