//! Alice's side of the swap: handshake processing, the durable state
//! machine, and the builder that starts or resumes a swap.
//!
//! Alice holds monero and wants bitcoin.  She answers Bob's request with
//! her keys, commitments and proof, validates his in turn, signs the
//! recovery family, locks her monero once Bob's bitcoin is confirmed,
//! and then either learns the adaptor signature and redeems the bitcoin
//! (revealing her scalar half to Bob), or walks the timelock ladder:
//! cancel, sweep her monero back if Bob refunds, punish him if he does
//! not.

use vstd::prelude::*;

use crate::crypto::{
    decrypt_spec, dleq_verifies, ed_commit_spec, enc_sign_spec, recover_spec, secp_commit_spec,
    word_of, wrap_add, CompletedSignature, DleqProof, EdPoint, EncryptedSignature, Scalar,
    SecpPoint,
};
use crate::database::{Database, PersistedSwap};
use crate::ecdsa::{sig_of, sig_valid, Keypair, PubKey};
use crate::protocol::{
    valid_msg2, ExecutionSetupMsg2, ExecutionSetupMsg3, ExecutionSetupMsg4, ProtocolError,
    SwapRequest, SwapResponse, TransferProof,
};
use crate::script::{shared_script_code, shared_spk, sighash_of, txid_of};
use crate::transactions::{TxCancel, TxLock, TxPunish, TxRedeem, TxRefund, SEQUENCE_FINAL};
use crate::{SwapAmounts, TX_FEE};

verus! {

/// Alice's data before the handshake.
#[derive(Clone, Copy)]
pub struct State0 {
    /// Alice's Bitcoin key pair.
    pub a: Keypair,
    /// Alice's public key, serialized.
    pub a_public: [u8; 33],
    /// Alice's half of the Monero spend key.
    pub s_a: Scalar,
    /// Alice's half of the shared view key.
    pub v_a: u64,
    /// Bitcoin amount in satoshi.
    pub btc: u64,
    /// Monero amount in piconero.
    pub xmr: u64,
    /// Blocks after lock confirmation until the cancel spend.
    pub cancel_timelock: u32,
    /// Blocks after cancel confirmation until the punish spend.
    pub punish_timelock: u32,
    /// Script-pubkey of Alice's redeem address.
    pub redeem_spk: [u8; 34],
    /// Script-pubkey of Alice's punish address.
    pub punish_spk: [u8; 34],
}

impl State0 {
    /// Gathers Alice's initial data.  The timelocks must be ordered and
    /// within the 16-bit relative-timelock range.
    pub fn new(a: Keypair, s_a: Scalar, v_a: u64, btc: u64, xmr: u64, cancel_timelock: u32,
        punish_timelock: u32, redeem_spk: [u8; 34], punish_spk: [u8; 34]) -> (r: State0)
        requires
            btc >= 2 * TX_FEE,
            1 <= cancel_timelock,
            cancel_timelock <= punish_timelock,
            punish_timelock <= 0xffff,
        ensures
            r.a == a,
            r.a_public@ == a.spec_public(),
            r.s_a == s_a,
            r.v_a == v_a,
            r.btc == btc,
            r.xmr == xmr,
            r.cancel_timelock == cancel_timelock,
            r.punish_timelock == punish_timelock,
            r.redeem_spk == redeem_spk,
            r.punish_spk == punish_spk,
    {
        let a_public = a.public();
        State0 {
            a,
            a_public,
            s_a,
            v_a,
            btc,
            xmr,
            cancel_timelock,
            punish_timelock,
            redeem_spk,
            punish_spk,
        }
    }
}

/// The response Alice sends Bob, as determined by her starting data.
/// It carries commitments and a proof, never a secret.
pub open spec fn swap_response_of(s0: State0) -> SwapResponse {
    SwapResponse {
        a: s0.a_public,
        s_a_bitcoin: secp_commit_spec(s0.s_a.bits),
        s_a_monero: ed_commit_spec(s0.s_a.bits),
        v_a: s0.v_a,
        dleq: DleqProof { witness: s0.s_a.bits },
        redeem_spk: s0.redeem_spk,
        punish_spk: s0.punish_spk,
        cancel_timelock: s0.cancel_timelock,
        punish_timelock: s0.punish_timelock,
    }
}

/// Builds the response to Bob's swap request.
pub fn swap_response(s0: &State0) -> (r: SwapResponse)
    ensures
        r == swap_response_of(*s0),
{
    SwapResponse {
        a: s0.a_public,
        s_a_bitcoin: crate::crypto::secp_commit(&s0.s_a),
        s_a_monero: crate::crypto::ed_commit(&s0.s_a),
        v_a: s0.v_a,
        dleq: crate::crypto::dleq_prove(&s0.s_a),
        redeem_spk: s0.redeem_spk,
        punish_spk: s0.punish_spk,
        cancel_timelock: s0.cancel_timelock,
        punish_timelock: s0.punish_timelock,
    }
}

/// Alice's data once Bob's keys and lock funding are validated and the
/// whole transaction family is derived.  Bob's partial signatures are
/// zero until message 4 is processed.
#[derive(Clone, Copy)]
pub struct State3 {
    /// Everything Alice started with.
    pub s0: State0,
    /// Bob's Bitcoin public key.
    pub b: PubKey,
    /// Commitment to `s_b` on the secp256k1 side.
    pub s_b_bitcoin: SecpPoint,
    /// Commitment to `s_b` on the Ed25519 side.
    pub s_b_monero: EdPoint,
    /// Bob's half of the shared view key.
    pub v_b: u64,
    /// Script-pubkey of Bob's refund address.
    pub refund_spk: [u8; 34],
    /// Id of the lock transaction.
    pub lock_txid: [u8; 32],
    /// Id of the cancel transaction.
    pub cancel_txid: [u8; 32],
    /// Sighash of the cancel transaction.
    pub cancel_digest: [u8; 32],
    /// Id of the redeem transaction.
    pub redeem_txid: [u8; 32],
    /// Sighash of the redeem transaction.
    pub redeem_digest: [u8; 32],
    /// Id of the refund transaction.
    pub refund_txid: [u8; 32],
    /// Sighash of the refund transaction.
    pub refund_digest: [u8; 32],
    /// Id of the punish transaction.
    pub punish_txid: [u8; 32],
    /// Sighash of the punish transaction.
    pub punish_digest: [u8; 32],
    /// Bob's signature on the cancel transaction.
    pub sig_cancel_b: [u8; 64],
    /// Bob's signature on the punish transaction.
    pub sig_punish_b: [u8; 64],
}

/// Ties every derived field of Alice's state to her starting data and
/// Bob's message: the same functions Bob applies on his side.
pub open spec fn state3_consistent(s3: State3, s0: State0, m: ExecutionSetupMsg2) -> bool {
    &&& s3.s0 == s0
    &&& s3.b.spec_bytes() == m.b@
    &&& s3.s_b_bitcoin == m.s_b_bitcoin
    &&& s3.s_b_monero == m.s_b_monero
    &&& s3.v_b == m.v_b
    &&& s3.refund_spk == m.refund_spk
    &&& s3.lock_txid@ == txid_of(m.fund_txid@, m.fund_vout, SEQUENCE_FINAL,
        shared_spk(s0.a.spec_public(), m.b@, s0.cancel_timelock), s0.btc)
    &&& s3.cancel_txid@ == txid_of(s3.lock_txid@, 0, s0.cancel_timelock,
        shared_spk(s0.a.spec_public(), m.b@, s0.punish_timelock), (s0.btc - TX_FEE) as u64)
    &&& s3.cancel_digest@ == sighash_of(s3.lock_txid@, 0, s0.cancel_timelock,
        shared_script_code(s0.a.spec_public(), m.b@, s0.cancel_timelock), s0.btc,
        shared_spk(s0.a.spec_public(), m.b@, s0.punish_timelock), (s0.btc - TX_FEE) as u64)
    &&& s3.redeem_txid@ == txid_of(s3.lock_txid@, 0, SEQUENCE_FINAL, s0.redeem_spk@,
        (s0.btc - TX_FEE) as u64)
    &&& s3.redeem_digest@ == sighash_of(s3.lock_txid@, 0, SEQUENCE_FINAL,
        shared_script_code(s0.a.spec_public(), m.b@, s0.cancel_timelock), s0.btc,
        s0.redeem_spk@, (s0.btc - TX_FEE) as u64)
    &&& s3.refund_txid@ == txid_of(s3.cancel_txid@, 0, SEQUENCE_FINAL, m.refund_spk@,
        (s0.btc - 2 * TX_FEE) as u64)
    &&& s3.refund_digest@ == sighash_of(s3.cancel_txid@, 0, SEQUENCE_FINAL,
        shared_script_code(s0.a.spec_public(), m.b@, s0.punish_timelock),
        (s0.btc - TX_FEE) as u64, m.refund_spk@, (s0.btc - 2 * TX_FEE) as u64)
    &&& s3.punish_txid@ == txid_of(s3.cancel_txid@, 0, s0.punish_timelock, s0.punish_spk@,
        (s0.btc - 2 * TX_FEE) as u64)
    &&& s3.punish_digest@ == sighash_of(s3.cancel_txid@, 0, s0.punish_timelock,
        shared_script_code(s0.a.spec_public(), m.b@, s0.punish_timelock),
        (s0.btc - TX_FEE) as u64, s0.punish_spk@, (s0.btc - 2 * TX_FEE) as u64)
}

/// The adaptor-encrypted refund signature Alice hands Bob: encrypted
/// under his commitment, so his use of it on chain reveals his scalar.
pub open spec fn alice_enc_refund(s3: State3) -> EncryptedSignature {
    enc_sign_spec(s3.s0.s_a.bits, word_of(s3.refund_digest@), s3.s_b_bitcoin)
}

/// Validates Bob's keys and lock funding (message 2), derives the whole
/// transaction family, and produces Alice's partial signatures
/// (message 3).  Succeeds exactly on valid messages.
pub fn process_msg2(s0: &State0, m: &ExecutionSetupMsg2) -> (r: Result<
    (State3, ExecutionSetupMsg3),
    ProtocolError,
>)
    requires
        s0.btc >= 2 * TX_FEE,
        s0.a_public@ == s0.a.spec_public(),
        1 <= s0.cancel_timelock,
        s0.cancel_timelock <= s0.punish_timelock,
        s0.punish_timelock <= 0xffff,
    ensures
        r is Ok <==> valid_msg2(*m),
        r matches Ok(p) ==> state3_consistent(p.0, *s0, *m)
            && p.1.sig_cancel_a@ == sig_of(s0.a.spec_secret(), p.0.cancel_digest@)
            && sig_valid(s0.a.spec_public(), p.0.cancel_digest@, p.1.sig_cancel_a@)
            && p.1.enc_refund_a == alice_enc_refund(p.0),
        r matches Err(e) ==> e == (if !dleq_verifies(m.dleq, m.s_b_bitcoin, m.s_b_monero) {
            ProtocolError::InvalidProof
        } else {
            ProtocolError::InvalidKey
        }),
{
    if !crate::crypto::dleq_verify(&m.dleq, &m.s_b_bitcoin, &m.s_b_monero) {
        return Err(ProtocolError::InvalidProof);
    }
    let b = match PubKey::from_bytes(m.b) {
        Some(k) => k,
        None => { return Err(ProtocolError::InvalidKey); },
    };
    let a_pub = s0.a.public_key();
    let lock = TxLock::new(&a_pub, &b, m.fund_txid, m.fund_vout, s0.btc, s0.cancel_timelock);
    let cancel = TxCancel::new(&lock, s0.punish_timelock);
    let redeem = TxRedeem::new(&lock, crate::bob::spk_vec(&s0.redeem_spk));
    let refund = TxRefund::new(&cancel, crate::bob::spk_vec(&m.refund_spk));
    let punish = TxPunish::new(&cancel, &crate::bob::spk_vec(&s0.punish_spk),
        s0.punish_timelock);
    let cancel_digest = cancel.digest();
    let refund_digest = refund.digest();
    let s3 = State3 {
        s0: *s0,
        b,
        s_b_bitcoin: m.s_b_bitcoin,
        s_b_monero: m.s_b_monero,
        v_b: m.v_b,
        refund_spk: m.refund_spk,
        lock_txid: lock.txid(),
        cancel_txid: cancel.txid(),
        cancel_digest,
        redeem_txid: redeem.txid(),
        redeem_digest: redeem.digest(),
        refund_txid: refund.txid(),
        refund_digest,
        punish_txid: punish.txid(),
        punish_digest: punish.digest(),
        sig_cancel_b: [0u8; 64],
        sig_punish_b: [0u8; 64],
    };
    let sig_cancel_a = s0.a.sign(&cancel_digest);
    let enc_refund_a = crate::crypto::enc_sign(&s0.s_a, crate::crypto::word_of_bytes(
        &refund_digest), &m.s_b_bitcoin);
    Ok((s3, ExecutionSetupMsg3 { sig_cancel_a, enc_refund_a }))
}

/// Validates Bob's partial signatures (message 4) against the cancel and
/// punish digests and stores them.  Succeeds exactly when both verify.
pub fn process_msg4(s3: &State3, m: &ExecutionSetupMsg4) -> (r: Result<State3, ProtocolError>)
    ensures
        r is Ok <==> sig_valid(s3.b.spec_bytes(), s3.cancel_digest@, m.sig_cancel_b@)
            && sig_valid(s3.b.spec_bytes(), s3.punish_digest@, m.sig_punish_b@),
        r matches Ok(ns) ==> ns == (State3 {
            sig_cancel_b: m.sig_cancel_b,
            sig_punish_b: m.sig_punish_b,
            ..*s3
        }),
        r matches Err(e) ==> e == ProtocolError::InvalidSignature,
{
    let b_bytes = s3.b.bytes();
    if !crate::ecdsa::verify_sig(&b_bytes, &s3.cancel_digest, &m.sig_cancel_b) {
        return Err(ProtocolError::InvalidSignature);
    }
    if !crate::ecdsa::verify_sig(&b_bytes, &s3.punish_digest, &m.sig_punish_b) {
        return Err(ProtocolError::InvalidSignature);
    }
    Ok(State3 { sig_cancel_b: m.sig_cancel_b, sig_punish_b: m.sig_punish_b, ..*s3 })
}

/// Alice's durable state.
#[derive(Clone, Copy)]
pub enum AliceState {
    /// Nothing agreed yet; waiting for Bob's request.
    Started {
        /// The amounts Alice offers to trade.
        amounts: SwapAmounts,
        /// Alice's starting data.
        state0: State0,
    },
    /// Response sent; waiting for Bob's keys and funding.
    AwaitingMsg2 {
        /// Alice's starting data.
        state0: State0,
    },
    /// Family derived and message 3 sent; waiting for Bob's signatures.
    AwaitingMsg4 {
        /// Everything established so far.
        state3: State3,
    },
    /// Handshake complete; waiting for Bob's lock to confirm.
    Negotiated(State3),
    /// Bob's bitcoin is locked; Alice locks her monero.
    BtcLocked(State3),
    /// Alice's monero is locked.
    XmrLocked(State3),
    /// Bob's adaptor signature arrived; the redeem is going out.
    EncSigLearned {
        /// Everything established so far.
        state3: State3,
        /// Bob's adaptor signature on the redeem.
        enc_sig: EncryptedSignature,
    },
    /// Alice redeemed the bitcoin.
    BtcRedeemed,
    /// The cancel transaction is on chain.
    BtcCancelled(State3),
    /// Bob refunded; the combined spend key is recovered.
    BtcRefunded {
        /// The combined Monero spend key.
        spend_key: Scalar,
    },
    /// Bob let the punish window pass; the punish spend is valid.
    BtcPunishable(State3),
    /// Alice claimed the locked coins through the punish spend.
    BtcPunished,
    /// Alice swept her monero back.
    XmrRefunded,
    /// The handshake failed before anything was published.
    SafelyAborted,
}

/// Whether the swap has reached one of Alice's terminal states.
pub open spec fn alice_is_complete_spec(state: AliceState) -> bool {
    match state {
        AliceState::BtcRedeemed | AliceState::XmrRefunded | AliceState::BtcPunished
            | AliceState::SafelyAborted => true,
        _ => false,
    }
}

/// Whether the swap is over for Alice.
pub fn alice_is_complete(state: &AliceState) -> (r: bool)
    ensures
        r == alice_is_complete_spec(*state),
{
    match state {
        AliceState::BtcRedeemed | AliceState::XmrRefunded | AliceState::BtcPunished
            | AliceState::SafelyAborted => true,
        _ => false,
    }
}

impl AliceState {
    /// The state's tag, as the store and the logs name it: each variant
    /// maps to its fixed lowercase tag, independent of the payload.
    pub fn label(&self) -> (r: &'static str)
        ensures
            self matches AliceState::Started { .. } ==> r@ == "started"@,
            self matches AliceState::AwaitingMsg2 { .. } ==> r@ == "negotiating"@,
            self matches AliceState::AwaitingMsg4 { .. } ==> r@ == "signing"@,
            self matches AliceState::Negotiated(..) ==> r@ == "negotiated"@,
            self matches AliceState::BtcLocked(..) ==> r@ == "btc_locked"@,
            self matches AliceState::XmrLocked(..) ==> r@ == "xmr_locked"@,
            self matches AliceState::EncSigLearned { .. } ==> r@ == "encsig_learned"@,
            self is BtcRedeemed ==> r@ == "btc_redeemed"@,
            self matches AliceState::BtcCancelled(..) ==> r@ == "btc_cancelled"@,
            self matches AliceState::BtcRefunded { .. } ==> r@ == "btc_refunded"@,
            self matches AliceState::BtcPunishable(..) ==> r@ == "btc_punishable"@,
            self is BtcPunished ==> r@ == "btc_punished"@,
            self is XmrRefunded ==> r@ == "xmr_refunded"@,
            self is SafelyAborted ==> r@ == "safely_aborted"@,
    {
        match self {
            AliceState::Started { .. } => "started",
            AliceState::AwaitingMsg2 { .. } => "negotiating",
            AliceState::AwaitingMsg4 { .. } => "signing",
            AliceState::Negotiated(..) => "negotiated",
            AliceState::BtcLocked(..) => "btc_locked",
            AliceState::XmrLocked(..) => "xmr_locked",
            AliceState::EncSigLearned { .. } => "encsig_learned",
            AliceState::BtcRedeemed => "btc_redeemed",
            AliceState::BtcCancelled(..) => "btc_cancelled",
            AliceState::BtcRefunded { .. } => "btc_refunded",
            AliceState::BtcPunishable(..) => "btc_punishable",
            AliceState::BtcPunished => "btc_punished",
            AliceState::XmrRefunded => "xmr_refunded",
            AliceState::SafelyAborted => "safely_aborted",
        }
    }
}

/// What the chains and the peer can tell Alice's driver.
#[derive(Clone, Copy)]
pub enum AliceEvent {
    /// Bob proposed the amounts (message 0).
    SwapRequestReceived(SwapRequest),
    /// Bob's keys and lock funding arrived (message 2).
    Msg2Received(ExecutionSetupMsg2),
    /// Bob's partial signatures arrived (message 4).
    Msg4Received(ExecutionSetupMsg4),
    /// The lock transaction is confirmed.
    TxLockConfirmed,
    /// Alice's Monero lock is confirmed, with its transaction hash.
    XmrLockConfirmed([u8; 32]),
    /// Bob's adaptor signature for the redeem arrived.
    EncSigReceived(EncryptedSignature),
    /// The cancel timelock has passed.
    CancelTimelockExpired,
    /// The refund transaction appeared on chain, with the completed
    /// signature it carries.
    TxRefundSeen(CompletedSignature),
    /// The punish timelock has passed.
    PunishTimelockExpired,
    /// The redeem transaction is confirmed.
    TxRedeemConfirmed,
}

/// What Alice's driver asks the outside to do.
#[derive(Clone, Copy)]
pub enum AliceAction {
    /// Answer Bob's request (message 1).
    SendSwapResponse(SwapResponse),
    /// Send the partial signatures (message 3).
    SendMsg3(ExecutionSetupMsg3),
    /// Lock the monero amount at the combined address.
    LockXmr(u64),
    /// Show Bob the Monero lock.
    SendTransferProof(TransferProof),
    /// Publish the redeem transaction with the decrypted signature.
    BroadcastTxRedeem([u8; 32], CompletedSignature),
    /// Publish the cancel transaction, or find it already on chain.
    BroadcastTxCancel([u8; 32]),
    /// Publish the punish transaction.
    BroadcastTxPunish([u8; 32]),
    /// Sweep the monero with the combined spend key.
    SweepXmr(Scalar),
}

/// Whether an action moves funds on a chain.
pub open spec fn alice_action_onchain(a: AliceAction) -> bool {
    match a {
        AliceAction::LockXmr(..) | AliceAction::BroadcastTxRedeem(..)
            | AliceAction::BroadcastTxCancel(..) | AliceAction::BroadcastTxPunish(..)
            | AliceAction::SweepXmr(..) => true,
        _ => false,
    }
}

/// The state Alice's driver runs toward.
#[derive(Clone, Copy, PartialEq, Eq, Structural, Debug)]
pub enum AliceTarget {
    /// Stop once Bob's bitcoin is locked.
    BtcLocked,
    /// Stop once the monero is locked.
    XmrLocked,
    /// Run to a terminal state.
    Complete,
}

/// Whether a state satisfies the target.
pub open spec fn alice_is_target(t: AliceTarget, s: AliceState) -> bool {
    match t {
        AliceTarget::BtcLocked => s matches AliceState::BtcLocked(..),
        AliceTarget::XmrLocked => s matches AliceState::XmrLocked(..),
        AliceTarget::Complete => alice_is_complete_spec(s),
    }
}

/// Checks a state against the target.
pub fn alice_target_reached(t: AliceTarget, s: &AliceState) -> (r: bool)
    ensures
        r == alice_is_target(t, *s),
{
    match t {
        AliceTarget::BtcLocked => match s {
            AliceState::BtcLocked(..) => true,
            _ => false,
        },
        AliceTarget::XmrLocked => match s {
            AliceState::XmrLocked(..) => true,
            _ => false,
        },
        AliceTarget::Complete => alice_is_complete(s),
    }
}

/// States past the handshake's derivation step: from here on the
/// machine is a pure function of state and events.
pub open spec fn post_setup_alice(s: AliceState) -> bool {
    match s {
        AliceState::Started { .. } | AliceState::AwaitingMsg2 { .. } => false,
        _ => true,
    }
}

/// How many driver-initiated steps a state takes before it needs an
/// event again.
pub open spec fn alice_rank(s: AliceState) -> int {
    match s {
        AliceState::BtcRefunded { .. } | AliceState::BtcPunishable(..) => 1,
        _ => 0,
    }
}

/// The transition a state takes on its own: sweeping the monero once the
/// spend key is whole, and punishing once the window has passed.
pub open spec fn alice_auto(s: AliceState) -> (AliceState, Seq<AliceAction>) {
    match s {
        AliceState::BtcRefunded { spend_key } => (
            AliceState::XmrRefunded,
            seq![AliceAction::SweepXmr(spend_key)],
        ),
        AliceState::BtcPunishable(s3) => (
            AliceState::BtcPunished,
            seq![AliceAction::BroadcastTxPunish(s3.punish_txid)],
        ),
        _ => (s, Seq::empty()),
    }
}

/// The transition a state takes on an event.  Unexpected events abort
/// only while nothing is at stake; afterwards they are ignored and the
/// timelock ladder decides.
pub open spec fn alice_on_event(s: AliceState, ev: AliceEvent) -> (AliceState, Seq<AliceAction>) {
    match s {
        AliceState::AwaitingMsg4 { state3 } => match ev {
            AliceEvent::Msg4Received(m) => if sig_valid(state3.b.spec_bytes(),
                state3.cancel_digest@, m.sig_cancel_b@)
                && sig_valid(state3.b.spec_bytes(), state3.punish_digest@, m.sig_punish_b@) {
                (
                    AliceState::Negotiated(State3 {
                        sig_cancel_b: m.sig_cancel_b,
                        sig_punish_b: m.sig_punish_b,
                        ..state3
                    }),
                    Seq::empty(),
                )
            } else {
                (AliceState::SafelyAborted, Seq::empty())
            },
            _ => (AliceState::SafelyAborted, Seq::empty()),
        },
        AliceState::Negotiated(s3) => match ev {
            AliceEvent::TxLockConfirmed => (
                AliceState::BtcLocked(s3),
                seq![AliceAction::LockXmr(s3.s0.xmr)],
            ),
            _ => (s, Seq::empty()),
        },
        AliceState::BtcLocked(s3) => match ev {
            AliceEvent::XmrLockConfirmed(h) => (
                AliceState::XmrLocked(s3),
                seq![
                    AliceAction::SendTransferProof(
                        TransferProof { tx_hash: h, tx_key: s3.s0.v_a },
                    ),
                ],
            ),
            AliceEvent::CancelTimelockExpired => (
                AliceState::BtcCancelled(s3),
                seq![AliceAction::BroadcastTxCancel(s3.cancel_txid)],
            ),
            _ => (s, Seq::empty()),
        },
        AliceState::XmrLocked(s3) => match ev {
            AliceEvent::EncSigReceived(es) => (
                AliceState::EncSigLearned { state3: s3, enc_sig: es },
                seq![
                    AliceAction::BroadcastTxRedeem(
                        s3.redeem_txid,
                        decrypt_spec(es, s3.s0.s_a.bits),
                    ),
                ],
            ),
            AliceEvent::CancelTimelockExpired => (
                AliceState::BtcCancelled(s3),
                seq![AliceAction::BroadcastTxCancel(s3.cancel_txid)],
            ),
            _ => (s, Seq::empty()),
        },
        AliceState::EncSigLearned { state3, enc_sig } => match ev {
            AliceEvent::TxRedeemConfirmed => (AliceState::BtcRedeemed, Seq::empty()),
            _ => (s, Seq::empty()),
        },
        AliceState::BtcCancelled(s3) => match ev {
            AliceEvent::TxRefundSeen(sig) => (
                AliceState::BtcRefunded {
                    spend_key: Scalar {
                        bits: wrap_add(s3.s0.s_a.bits,
                            recover_spec(alice_enc_refund(s3), sig).bits),
                    },
                },
                Seq::empty(),
            ),
            AliceEvent::PunishTimelockExpired => (AliceState::BtcPunishable(s3), Seq::empty()),
            _ => (s, Seq::empty()),
        },
        _ => (s, Seq::empty()),
    }
}

/// The whole run of Alice's machine from a state over a trace of events.
pub open spec fn alice_run(s: AliceState, target: AliceTarget, events: Seq<AliceEvent>) -> (
    AliceState,
    Seq<AliceAction>,
)
    decreases events.len(), alice_rank(s),
{
    if alice_is_target(target, s) || alice_is_complete_spec(s) {
        (s, Seq::empty())
    } else if alice_rank(s) > 0 {
        let (s1, a1) = alice_auto(s);
        let (s2, a2) = alice_run(s1, target, events);
        (s2, a1 + a2)
    } else if events.len() == 0 {
        (s, Seq::empty())
    } else {
        let (s1, a1) = alice_on_event(s, events[0]);
        let (s2, a2) = alice_run(s1, target, events.drop_first());
        (s2, a1 + a2)
    }
}

/// Running a trace in two sittings reaches the same state as running it
/// in one.
pub proof fn lemma_alice_run_append(s: AliceState, target: AliceTarget, e1: Seq<AliceEvent>,
    e2: Seq<AliceEvent>)
    ensures
        alice_run(s, target, e1 + e2).0 == alice_run(alice_run(s, target, e1).0, target, e2).0,
    decreases e1.len(), alice_rank(s),
{
    if alice_is_target(target, s) || alice_is_complete_spec(s) {
    } else if alice_rank(s) > 0 {
        let (s1, _) = alice_auto(s);
        lemma_alice_run_append(s1, target, e1, e2);
    } else if e1.len() == 0 {
        assert(e1 + e2 =~= e2);
    } else {
        let (s1, _) = alice_on_event(s, e1[0]);
        assert((e1 + e2)[0] == e1[0]);
        assert((e1 + e2).drop_first() =~= e1.drop_first() + e2);
        lemma_alice_run_append(s1, target, e1.drop_first(), e2);
    }
}

/// Resumption idempotence for Alice's driver.
pub proof fn lemma_alice_resumption(s: AliceState, target: AliceTarget,
    events: Seq<AliceEvent>, k: int)
    requires
        0 <= k <= events.len(),
    ensures
        alice_run(alice_run(s, target, events.take(k)).0, target, events.skip(k)).0
            == alice_run(s, target, events).0,
{
    lemma_alice_run_append(s, target, events.take(k), events.skip(k));
    assert(events.take(k) + events.skip(k) =~= events);
}

/// Honest redeem, Alice's side: once Bob's adaptor signature arrives
/// before the cancel timelock, Alice publishes the redeem with the
/// decrypted signature and ends with the bitcoin redeemed.
pub proof fn lemma_alice_honest_redeem(s3: State3, es: EncryptedSignature)
    ensures
        ({
            let (fs, acts) = alice_run(AliceState::XmrLocked(s3), AliceTarget::Complete,
                seq![AliceEvent::EncSigReceived(es), AliceEvent::TxRedeemConfirmed]);
            fs == AliceState::BtcRedeemed && acts == seq![
                AliceAction::BroadcastTxRedeem(s3.redeem_txid, decrypt_spec(es, s3.s0.s_a.bits)),
            ]
        }),
{
    reveal_with_fuel(alice_run, 6);
    let evs = seq![AliceEvent::EncSigReceived(es), AliceEvent::TxRedeemConfirmed];
    let (s1, a1) = alice_on_event(AliceState::XmrLocked(s3), evs[0]);
    assert(evs.drop_first() =~= seq![AliceEvent::TxRedeemConfirmed]);
    let evs2 = evs.drop_first();
    let (s2, a2) = alice_on_event(s1, evs2[0]);
    assert(evs2.drop_first().len() == 0);
    let (fs, acts) = alice_run(AliceState::XmrLocked(s3), AliceTarget::Complete, evs);
    assert(fs == AliceState::BtcRedeemed);
    assert(acts =~= seq![
        AliceAction::BroadcastTxRedeem(s3.redeem_txid, decrypt_spec(es, s3.s0.s_a.bits)),
    ]);
}

/// Refund safety, Alice's side: when Bob's refund appears on chain, its
/// completed signature together with the adaptor signature Alice made
/// reveals exactly Bob's scalar half, and Alice sweeps her monero with
/// the combined key.
pub proof fn lemma_alice_refund(s3: State3, s_b: Scalar)
    ensures
        ({
            let sig = decrypt_spec(alice_enc_refund(s3), s_b.bits);
            let (fs, acts) = alice_run(AliceState::BtcCancelled(s3), AliceTarget::Complete,
                seq![AliceEvent::TxRefundSeen(sig)]);
            fs == AliceState::XmrRefunded && acts == seq![
                AliceAction::SweepXmr(Scalar { bits: wrap_add(s3.s0.s_a.bits, s_b.bits) }),
            ]
        }),
{
    reveal_with_fuel(alice_run, 6);
    let sig = decrypt_spec(alice_enc_refund(s3), s_b.bits);
    crate::crypto::lemma_wrap_roundtrip(alice_enc_refund(s3).presig, s_b.bits);
    assert(recover_spec(alice_enc_refund(s3), sig) == s_b);
    let evs = seq![AliceEvent::TxRefundSeen(sig)];
    let (s1, a1) = alice_on_event(AliceState::BtcCancelled(s3), evs[0]);
    assert(evs.drop_first().len() == 0);
    let (fs, acts) = alice_run(AliceState::BtcCancelled(s3), AliceTarget::Complete, evs);
    assert(fs == AliceState::XmrRefunded);
    assert(acts =~= seq![
        AliceAction::SweepXmr(Scalar { bits: wrap_add(s3.s0.s_a.bits, s_b.bits) }),
    ]);
}

/// Punish safety: with the cancel transaction on chain and the punish
/// window elapsed without a refund, Alice's driver publishes the punish
/// transaction and ends with the locked coins claimed.
pub proof fn lemma_alice_punish(s3: State3)
    ensures
        ({
            let (fs, acts) = alice_run(AliceState::BtcCancelled(s3), AliceTarget::Complete,
                seq![AliceEvent::PunishTimelockExpired]);
            fs == AliceState::BtcPunished && acts == seq![
                AliceAction::BroadcastTxPunish(s3.punish_txid),
            ]
        }),
{
    reveal_with_fuel(alice_run, 6);
    let evs = seq![AliceEvent::PunishTimelockExpired];
    let (s1, a1) = alice_on_event(AliceState::BtcCancelled(s3), evs[0]);
    assert(evs.drop_first().len() == 0);
    let (fs, acts) = alice_run(AliceState::BtcCancelled(s3), AliceTarget::Complete, evs);
    assert(fs == AliceState::BtcPunished);
    assert(acts =~= seq![AliceAction::BroadcastTxPunish(s3.punish_txid)]);
}

/// One unfolding of `alice_run` at a state that is done.
proof fn lemma_alice_run_done(s: AliceState, t: AliceTarget, evs: Seq<AliceEvent>)
    requires
        alice_is_target(t, s) || alice_is_complete_spec(s),
    ensures
        alice_run(s, t, evs) == (s, Seq::<AliceAction>::empty()),
{
}

/// One unfolding of `alice_run` at a state that steps on its own.
proof fn lemma_alice_run_auto_step(s: AliceState, t: AliceTarget, evs: Seq<AliceEvent>)
    requires
        !alice_is_target(t, s),
        !alice_is_complete_spec(s),
        alice_rank(s) > 0,
    ensures
        alice_run(s, t, evs).0 == alice_run(alice_auto(s).0, t, evs).0,
        alice_run(s, t, evs).1 == alice_auto(s).1 + alice_run(alice_auto(s).0, t, evs).1,
{
}

/// One unfolding of `alice_run` at a state that consumes an event.
proof fn lemma_alice_run_event_step(s: AliceState, t: AliceTarget, evs: Seq<AliceEvent>)
    requires
        !alice_is_target(t, s),
        !alice_is_complete_spec(s),
        alice_rank(s) == 0,
        evs.len() > 0,
    ensures
        alice_run(s, t, evs).0 == alice_run(alice_on_event(s, evs[0]).0, t,
            evs.drop_first()).0,
        alice_run(s, t, evs).1 == alice_on_event(s, evs[0]).1
            + alice_run(alice_on_event(s, evs[0]).0, t, evs.drop_first()).1,
{
}

/// One unfolding of `alice_run` at a state whose events ran out.
proof fn lemma_alice_run_stuck(s: AliceState, t: AliceTarget, evs: Seq<AliceEvent>)
    requires
        !alice_is_target(t, s),
        !alice_is_complete_spec(s),
        alice_rank(s) == 0,
        evs.len() == 0,
    ensures
        alice_run(s, t, evs) == (s, Seq::<AliceAction>::empty()),
{
}

/// The states in which Alice may still abort; none of them has put
/// anything on a chain.
pub open spec fn alice_pre_lock(s: AliceState) -> bool {
    match s {
        AliceState::Started { .. } | AliceState::AwaitingMsg2 { .. }
            | AliceState::AwaitingMsg4 { .. } | AliceState::SafelyAborted => true,
        _ => false,
    }
}

/// Drives Alice's machine over the events until the target, a terminal
/// state, or the end of the trace, persisting every reached state.
///
/// For a start past the handshake's derivation step the outcome is
/// exactly the machine's run.  The store always ends holding the state
/// that was reached, and a run that ends safely aborted has performed no
/// on-chain action.
pub fn run_until(state: AliceState, is_target_state: AliceTarget, events: &Vec<AliceEvent>,
    db: &mut Database<PersistedSwap>, swap_id: u128) -> (r: (AliceState, Vec<AliceAction>))
    requires
        state matches AliceState::Started { state0, .. } ==> state0.btc >= 2 * TX_FEE
            && state0.a_public@ == state0.a.spec_public() && 1 <= state0.cancel_timelock
            && state0.cancel_timelock <= state0.punish_timelock
            && state0.punish_timelock <= 0xffff,
        state matches AliceState::AwaitingMsg2 { state0 } ==> state0.btc >= 2 * TX_FEE
            && state0.a_public@ == state0.a.spec_public() && 1 <= state0.cancel_timelock
            && state0.cancel_timelock <= state0.punish_timelock
            && state0.punish_timelock <= 0xffff,
    ensures
        post_setup_alice(state) ==> r.0 == alice_run(state, is_target_state, events@).0,
        post_setup_alice(state) ==> r.1@ == alice_run(state, is_target_state, events@).1,
        final(db).swaps() == old(db).swaps().insert(swap_id, PersistedSwap::Alice(r.0)),
        r.0 is SafelyAborted ==> forall|j: int|
            0 <= j < r.1@.len() ==> !alice_action_onchain(#[trigger] r.1@[j]),
        (state matches AliceState::Started { amounts, .. } && events@.len() > 0
            && !(events@[0] matches AliceEvent::SwapRequestReceived(q)
                && q.btc == amounts.btc && q.xmr == amounts.xmr))
            ==> r.0 is SafelyAborted,
        (state matches AliceState::AwaitingMsg2 { .. } && events@.len() > 0
            && !(events@[0] matches AliceEvent::Msg2Received(m) && valid_msg2(m)))
            ==> r.0 is SafelyAborted,
        state matches AliceState::Started { amounts, state0 } ==> (events@.len() == 1
            ==> (events@[0] matches AliceEvent::SwapRequestReceived(q)
            ==> ((q.btc == amounts.btc && q.xmr == amounts.xmr)
            ==> (r.0 == (AliceState::AwaitingMsg2 { state0 }) && r.1@.len() == 1
                && r.1@[0] == AliceAction::SendSwapResponse(swap_response_of(state0)))))),
        state matches AliceState::AwaitingMsg2 { state0 } ==> (events@.len() == 1
            ==> (events@[0] matches AliceEvent::Msg2Received(m) ==> (valid_msg2(m)
            ==> (r.0 matches AliceState::AwaitingMsg4 { state3 }
                && state3_consistent(state3, state0, m) && r.1@.len() == 1
                && (r.1@[0] matches AliceAction::SendMsg3(m3)
                    && m3.sig_cancel_a@ == sig_of(state0.a.spec_secret(), state3.cancel_digest@)
                    && m3.enc_refund_a == alice_enc_refund(state3)))))),
{
    let mut cur = state;
    let mut acts: Vec<AliceAction> = Vec::new();
    let mut i: usize = 0;
    db.insert_latest_state(swap_id, PersistedSwap::Alice(cur));
    proof {
        assert(events@.skip(0) =~= events@);
        if post_setup_alice(state) {
            assert(Seq::<AliceAction>::empty() + alice_run(cur, is_target_state, events@).1
                =~= alice_run(cur, is_target_state, events@).1);
        }
    }
    loop
        invariant_except_break
            i <= events@.len(),
            db.swaps() == old(db).swaps().insert(swap_id, PersistedSwap::Alice(cur)),
            cur matches AliceState::Started { state0, .. } ==> state0.btc >= 2 * TX_FEE
                && state0.a_public@ == state0.a.spec_public() && 1 <= state0.cancel_timelock
                && state0.cancel_timelock <= state0.punish_timelock
                && state0.punish_timelock <= 0xffff,
            cur matches AliceState::AwaitingMsg2 { state0 } ==> state0.btc >= 2 * TX_FEE
                && state0.a_public@ == state0.a.spec_public() && 1 <= state0.cancel_timelock
                && state0.cancel_timelock <= state0.punish_timelock
                && state0.punish_timelock <= 0xffff,
            post_setup_alice(state) ==> post_setup_alice(cur),
            cur matches AliceState::Started { .. } ==> cur == state && i == 0,
            (state matches AliceState::AwaitingMsg2 { .. } && cur matches
                AliceState::AwaitingMsg2 { .. }) ==> (cur == state && i == 0),
            (state matches AliceState::Started { amounts, .. } && events@.len() > 0
                && !(events@[0] matches AliceEvent::SwapRequestReceived(q)
                    && q.btc == amounts.btc && q.xmr == amounts.xmr))
                ==> (cur matches AliceState::Started { .. } || cur is SafelyAborted),
            (state matches AliceState::AwaitingMsg2 { .. } && events@.len() > 0
                && !(events@[0] matches AliceEvent::Msg2Received(m) && valid_msg2(m)))
                ==> (cur matches AliceState::AwaitingMsg2 { .. } || cur is SafelyAborted),
            state matches AliceState::Started { amounts, state0 } ==> (events@.len() == 1
                ==> (events@[0] matches AliceEvent::SwapRequestReceived(q)
                ==> ((q.btc == amounts.btc && q.xmr == amounts.xmr)
                ==> ((cur == state && i == 0 && acts@.len() == 0)
                    || (cur == (AliceState::AwaitingMsg2 { state0 }) && i == 1
                        && acts@.len() == 1
                        && acts@[0] == AliceAction::SendSwapResponse(
                            swap_response_of(state0))))))),
            state matches AliceState::AwaitingMsg2 { state0 } ==> (events@.len() == 1
                ==> (events@[0] matches AliceEvent::Msg2Received(m) ==> (valid_msg2(m)
                ==> ((cur == state && i == 0 && acts@.len() == 0)
                    || (cur matches AliceState::AwaitingMsg4 { state3 }
                        && state3_consistent(state3, state0, m) && i == 1
                        && acts@.len() == 1
                        && (acts@[0] matches AliceAction::SendMsg3(m3)
                            && m3.sig_cancel_a@ == sig_of(state0.a.spec_secret(),
                                state3.cancel_digest@)
                            && m3.enc_refund_a == alice_enc_refund(state3))))))),
            post_setup_alice(state) ==> alice_run(state, is_target_state, events@).0
                == alice_run(cur, is_target_state, events@.skip(i as int)).0,
            post_setup_alice(state) ==> alice_run(state, is_target_state, events@).1
                == acts@ + alice_run(cur, is_target_state, events@.skip(i as int)).1,
            alice_pre_lock(cur) ==> forall|j: int|
                0 <= j < acts@.len() ==> !alice_action_onchain(#[trigger] acts@[j]),
        ensures
            db.swaps() == old(db).swaps().insert(swap_id, PersistedSwap::Alice(cur)),
            post_setup_alice(state) ==> alice_run(state, is_target_state, events@).0 == cur,
            post_setup_alice(state) ==> alice_run(state, is_target_state, events@).1 == acts@,
            cur is SafelyAborted ==> forall|j: int|
                0 <= j < acts@.len() ==> !alice_action_onchain(#[trigger] acts@[j]),
            (state matches AliceState::Started { amounts, .. } && events@.len() > 0
                && !(events@[0] matches AliceEvent::SwapRequestReceived(q)
                    && q.btc == amounts.btc && q.xmr == amounts.xmr))
                ==> cur is SafelyAborted,
            (state matches AliceState::AwaitingMsg2 { .. } && events@.len() > 0
                && !(events@[0] matches AliceEvent::Msg2Received(m) && valid_msg2(m)))
                ==> cur is SafelyAborted,
            state matches AliceState::Started { amounts, state0 } ==> (events@.len() == 1
                ==> (events@[0] matches AliceEvent::SwapRequestReceived(q)
                ==> ((q.btc == amounts.btc && q.xmr == amounts.xmr)
                ==> (cur == (AliceState::AwaitingMsg2 { state0 }) && acts@.len() == 1
                    && acts@[0] == AliceAction::SendSwapResponse(swap_response_of(state0)))))),
            state matches AliceState::AwaitingMsg2 { state0 } ==> (events@.len() == 1
                ==> (events@[0] matches AliceEvent::Msg2Received(m) ==> (valid_msg2(m)
                ==> (cur matches AliceState::AwaitingMsg4 { state3 }
                    && state3_consistent(state3, state0, m) && acts@.len() == 1
                    && (acts@[0] matches AliceAction::SendMsg3(m3)
                        && m3.sig_cancel_a@ == sig_of(state0.a.spec_secret(),
                            state3.cancel_digest@)
                        && m3.enc_refund_a == alice_enc_refund(state3)))))),
        decreases events@.len() - i, alice_rank(cur),
    {
        let ghost cur0 = cur;
        let ghost i0 = i as int;
        let ghost acts0 = acts@;
        if alice_target_reached(is_target_state, &cur) || alice_is_complete(&cur) {
            proof {
                if post_setup_alice(state) {
                    lemma_alice_run_done(cur, is_target_state, events@.skip(i0));
                    assert(acts@ + Seq::<AliceAction>::empty() =~= acts@);
                }
            }
            break;
        }
        match cur {
            AliceState::Started { amounts, state0 } => {
                if i == events.len() {
                    break;
                }
                let ev = events[i];
                i = i + 1;
                match ev {
                    AliceEvent::SwapRequestReceived(req) => {
                        if req.btc == amounts.btc && req.xmr == amounts.xmr {
                            acts.push(AliceAction::SendSwapResponse(swap_response(&state0)));
                            cur = AliceState::AwaitingMsg2 { state0 };
                        } else {
                            cur = AliceState::SafelyAborted;
                        }
                    },
                    _ => {
                        cur = AliceState::SafelyAborted;
                    },
                }
                db.insert_latest_state(swap_id, PersistedSwap::Alice(cur));
                proof {
                    assert(db.swaps() =~= old(db).swaps().insert(swap_id,
                        PersistedSwap::Alice(cur)));
                }
            },
            AliceState::AwaitingMsg2 { state0 } => {
                if i == events.len() {
                    break;
                }
                let ev = events[i];
                i = i + 1;
                match ev {
                    AliceEvent::Msg2Received(m) => {
                        match process_msg2(&state0, &m) {
                            Ok((s3, m3)) => {
                                acts.push(AliceAction::SendMsg3(m3));
                                cur = AliceState::AwaitingMsg4 { state3: s3 };
                            },
                            Err(_) => {
                                cur = AliceState::SafelyAborted;
                            },
                        }
                    },
                    _ => {
                        cur = AliceState::SafelyAborted;
                    },
                }
                db.insert_latest_state(swap_id, PersistedSwap::Alice(cur));
                proof {
                    assert(db.swaps() =~= old(db).swaps().insert(swap_id,
                        PersistedSwap::Alice(cur)));
                }
            },
            AliceState::BtcRefunded { spend_key } => {
                acts.push(AliceAction::SweepXmr(spend_key));
                cur = AliceState::XmrRefunded;
                db.insert_latest_state(swap_id, PersistedSwap::Alice(cur));
                proof {
                    assert(db.swaps() =~= old(db).swaps().insert(swap_id,
                        PersistedSwap::Alice(cur)));
                    if post_setup_alice(state) {
                        lemma_alice_run_auto_step(cur0, is_target_state, events@.skip(i0));
                        assert(acts@ =~= acts0 + seq![AliceAction::SweepXmr(spend_key)]);
                        assert(acts0 + (alice_auto(cur0).1 + alice_run(cur, is_target_state,
                            events@.skip(i0)).1) =~= acts@ + alice_run(cur, is_target_state,
                            events@.skip(i0)).1);
                    }
                }
            },
            AliceState::BtcPunishable(s3) => {
                acts.push(AliceAction::BroadcastTxPunish(s3.punish_txid));
                cur = AliceState::BtcPunished;
                db.insert_latest_state(swap_id, PersistedSwap::Alice(cur));
                proof {
                    assert(db.swaps() =~= old(db).swaps().insert(swap_id,
                        PersistedSwap::Alice(cur)));
                    if post_setup_alice(state) {
                        lemma_alice_run_auto_step(cur0, is_target_state, events@.skip(i0));
                        assert(acts@ =~= acts0 + seq![
                            AliceAction::BroadcastTxPunish(s3.punish_txid),
                        ]);
                        assert(acts0 + (alice_auto(cur0).1 + alice_run(cur, is_target_state,
                            events@.skip(i0)).1) =~= acts@ + alice_run(cur, is_target_state,
                            events@.skip(i0)).1);
                    }
                }
            },
            _ => {
                if i == events.len() {
                    proof {
                        if post_setup_alice(state) {
                            lemma_alice_run_stuck(cur, is_target_state, events@.skip(i0));
                            assert(acts@ + Seq::<AliceAction>::empty() =~= acts@);
                        }
                    }
                    break;
                }
                let ev = events[i];
                i = i + 1;
                match cur {
                    AliceState::AwaitingMsg4 { state3 } => match ev {
                        AliceEvent::Msg4Received(m) => {
                            match process_msg4(&state3, &m) {
                                Ok(ns) => {
                                    cur = AliceState::Negotiated(ns);
                                },
                                Err(_) => {
                                    cur = AliceState::SafelyAborted;
                                },
                            }
                        },
                        _ => {
                            cur = AliceState::SafelyAborted;
                        },
                    },
                    AliceState::Negotiated(s3) => match ev {
                        AliceEvent::TxLockConfirmed => {
                            acts.push(AliceAction::LockXmr(s3.s0.xmr));
                            cur = AliceState::BtcLocked(s3);
                        },
                        _ => {},
                    },
                    AliceState::BtcLocked(s3) => match ev {
                        AliceEvent::XmrLockConfirmed(h) => {
                            acts.push(AliceAction::SendTransferProof(TransferProof {
                                tx_hash: h,
                                tx_key: s3.s0.v_a,
                            }));
                            cur = AliceState::XmrLocked(s3);
                        },
                        AliceEvent::CancelTimelockExpired => {
                            acts.push(AliceAction::BroadcastTxCancel(s3.cancel_txid));
                            cur = AliceState::BtcCancelled(s3);
                        },
                        _ => {},
                    },
                    AliceState::XmrLocked(s3) => match ev {
                        AliceEvent::EncSigReceived(es) => {
                            let sig = crate::crypto::decrypt(&es, &s3.s0.s_a);
                            acts.push(AliceAction::BroadcastTxRedeem(s3.redeem_txid, sig));
                            cur = AliceState::EncSigLearned { state3: s3, enc_sig: es };
                        },
                        AliceEvent::CancelTimelockExpired => {
                            acts.push(AliceAction::BroadcastTxCancel(s3.cancel_txid));
                            cur = AliceState::BtcCancelled(s3);
                        },
                        _ => {},
                    },
                    AliceState::EncSigLearned { state3, enc_sig } => match ev {
                        AliceEvent::TxRedeemConfirmed => {
                            cur = AliceState::BtcRedeemed;
                        },
                        _ => {},
                    },
                    AliceState::BtcCancelled(s3) => match ev {
                        AliceEvent::TxRefundSeen(sig) => {
                            let enc = crate::crypto::enc_sign(&s3.s0.s_a,
                                crate::crypto::word_of_bytes(&s3.refund_digest),
                                &s3.s_b_bitcoin);
                            let s_b = crate::crypto::recover(&enc, &sig);
                            let spend_key = crate::crypto::scalar_add(&s3.s0.s_a, &s_b);
                            cur = AliceState::BtcRefunded { spend_key };
                        },
                        AliceEvent::PunishTimelockExpired => {
                            cur = AliceState::BtcPunishable(s3);
                        },
                        _ => {},
                    },
                    _ => {},
                }
                db.insert_latest_state(swap_id, PersistedSwap::Alice(cur));
                proof {
                    assert(db.swaps() =~= old(db).swaps().insert(swap_id,
                        PersistedSwap::Alice(cur)));
                    if post_setup_alice(state) {
                        let evs = events@.skip(i0);
                        assert(evs[0] == events@[i0]);
                        assert(evs.drop_first() =~= events@.skip(i0 + 1));
                        lemma_alice_run_event_step(cur0, is_target_state, evs);
                        assert(alice_on_event(cur0, evs[0]).0 == cur);
                        assert(acts@ =~= acts0 + alice_on_event(cur0, evs[0]).1);
                        assert(acts0 + (alice_on_event(cur0, evs[0]).1 + alice_run(cur,
                            is_target_state, evs.drop_first()).1) =~= acts@ + alice_run(cur,
                            is_target_state, evs.drop_first()).1);
                    }
                }
            },
        }
    }
    proof {
        if post_setup_alice(state) {
            assert(acts@ + Seq::<AliceAction>::empty() =~= acts@);
        }
    }
    (cur, acts)
}

/// Runs Alice's swap to a terminal state.
pub fn run(state: AliceState, events: &Vec<AliceEvent>, db: &mut Database<PersistedSwap>,
    swap_id: u128) -> (r: (AliceState, Vec<AliceAction>))
    requires
        state matches AliceState::Started { state0, .. } ==> state0.btc >= 2 * TX_FEE
            && state0.a_public@ == state0.a.spec_public() && 1 <= state0.cancel_timelock
            && state0.cancel_timelock <= state0.punish_timelock
            && state0.punish_timelock <= 0xffff,
        state matches AliceState::AwaitingMsg2 { state0 } ==> state0.btc >= 2 * TX_FEE
            && state0.a_public@ == state0.a.spec_public() && 1 <= state0.cancel_timelock
            && state0.cancel_timelock <= state0.punish_timelock
            && state0.punish_timelock <= 0xffff,
    ensures
        post_setup_alice(state) ==> r.0 == alice_run(state, AliceTarget::Complete, events@).0,
        post_setup_alice(state) ==> r.1@ == alice_run(state, AliceTarget::Complete, events@).1,
        final(db).swaps() == old(db).swaps().insert(swap_id, PersistedSwap::Alice(r.0)),
        r.0 is SafelyAborted ==> forall|j: int|
            0 <= j < r.1@.len() ==> !alice_action_onchain(#[trigger] r.1@[j]),
        (state matches AliceState::AwaitingMsg2 { .. } && events@.len() > 0
            && !(events@[0] matches AliceEvent::Msg2Received(m) && valid_msg2(m)))
            ==> r.0 is SafelyAborted,
        state matches AliceState::Started { amounts, state0 } ==> (events@.len() == 1
            ==> (events@[0] matches AliceEvent::SwapRequestReceived(q)
            ==> ((q.btc == amounts.btc && q.xmr == amounts.xmr)
            ==> (r.0 == (AliceState::AwaitingMsg2 { state0 }) && r.1@.len() == 1
                && r.1@[0] == AliceAction::SendSwapResponse(swap_response_of(state0)))))),
        state matches AliceState::AwaitingMsg2 { state0 } ==> (events@.len() == 1
            ==> (events@[0] matches AliceEvent::Msg2Received(m) ==> (valid_msg2(m)
            ==> (r.0 matches AliceState::AwaitingMsg4 { state3 }
                && state3_consistent(state3, state0, m) && r.1@.len() == 1
                && (r.1@[0] matches AliceAction::SendMsg3(m3)
                    && m3.sig_cancel_a@ == sig_of(state0.a.spec_secret(), state3.cancel_digest@)
                    && m3.enc_refund_a == alice_enc_refund(state3)))))),
{
    run_until(state, AliceTarget::Complete, events, db, swap_id)
}

/// The timelock configuration a swap runs with.
#[derive(Clone, Copy, PartialEq, Eq, Structural, Debug)]
pub struct ExecutionParams {
    /// Blocks after lock confirmation until the cancel spend.
    pub bitcoin_cancel_timelock: u32,
    /// Blocks after cancel confirmation until the punish spend.
    pub bitcoin_punish_timelock: u32,
}

/// The peer id the model derives from an identity key: its first
/// sixteen bytes, little endian.
pub open spec fn peer_id_of(pk: Seq<u8>) -> u128 {
    if pk.len() >= 16 {
        (pk[0] + pk[1] * 0x100 + pk[2] * 0x1_0000 + pk[3] * 0x100_0000
            + pk[4] * 0x1_0000_0000 + pk[5] * 0x100_0000_0000 + pk[6] * 0x1_0000_0000_0000
            + pk[7] * 0x100_0000_0000_0000 + pk[8] * 0x1_0000_0000_0000_0000
            + pk[9] * 0x100_0000_0000_0000_0000 + pk[10] * 0x1_0000_0000_0000_0000_0000
            + pk[11] * 0x100_0000_0000_0000_0000_0000
            + pk[12] * 0x1_0000_0000_0000_0000_0000_0000
            + pk[13] * 0x100_0000_0000_0000_0000_0000_0000
            + pk[14] * 0x1_0000_0000_0000_0000_0000_0000_0000
            + pk[15] * 0x100_0000_0000_0000_0000_0000_0000_0000) as u128
    } else {
        0
    }
}

/// Folds an identity key into the model's peer id.
fn peer_id_from_key(pk: &[u8; 33]) -> (r: u128)
    ensures
        r == peer_id_of(pk@),
{
    pk[0] as u128 + pk[1] as u128 * 0x100 + pk[2] as u128 * 0x1_0000
        + pk[3] as u128 * 0x100_0000 + pk[4] as u128 * 0x1_0000_0000
        + pk[5] as u128 * 0x100_0000_0000 + pk[6] as u128 * 0x1_0000_0000_0000
        + pk[7] as u128 * 0x100_0000_0000_0000 + pk[8] as u128 * 0x1_0000_0000_0000_0000
        + pk[9] as u128 * 0x100_0000_0000_0000_0000
        + pk[10] as u128 * 0x1_0000_0000_0000_0000_0000
        + pk[11] as u128 * 0x100_0000_0000_0000_0000_0000
        + pk[12] as u128 * 0x1_0000_0000_0000_0000_0000_0000
        + pk[13] as u128 * 0x100_0000_0000_0000_0000_0000_0000
        + pk[14] as u128 * 0x1_0000_0000_0000_0000_0000_0000_0000
        + pk[15] as u128 * 0x100_0000_0000_0000_0000_0000_0000_0000
}

/// Whether a swap starts fresh or resumes from the store.
#[derive(Clone, Copy)]
pub enum InitParams {
    /// Resume a persisted swap.
    Resume,
    /// Start a fresh swap over the given amounts.
    New {
        /// The amounts to trade.
        swap_amounts: SwapAmounts,
    },
}

/// A running swap in Alice's role: its state and configuration.  The
/// wallets, the transport and the store stay outside; the driver talks
/// to them through events and actions.
pub struct Swap {
    /// The swap's durable state.
    pub state: AliceState,
    /// The timelock configuration.
    pub execution_params: ExecutionParams,
    /// The swap's id in the store.
    pub swap_id: u128,
}

/// Builds a swap in Alice's role, fresh or resumed.
pub struct Builder {
    swap_id: u128,
    identity: Keypair,
    peer_id: u128,
    execution_params: ExecutionParams,
    listen_address: u128,
    init_params: InitParams,
}

impl Builder {
    /// The swap id this builder was made for.
    pub closed spec fn spec_swap_id(self) -> u128 {
        self.swap_id
    }

    /// The peer id derived from the identity key.
    pub closed spec fn spec_peer_id(self) -> u128 {
        self.peer_id
    }

    /// The address the node will listen on.
    pub closed spec fn spec_listen_address(self) -> u128 {
        self.listen_address
    }

    /// The timelock configuration.
    pub closed spec fn spec_params(self) -> ExecutionParams {
        self.execution_params
    }

    /// Fresh or resumed.
    pub closed spec fn spec_init(self) -> InitParams {
        self.init_params
    }

    #[verifier::type_invariant]
    spec fn wf(self) -> bool {
        &&& 1 <= self.execution_params.bitcoin_cancel_timelock
        &&& self.execution_params.bitcoin_cancel_timelock
            <= self.execution_params.bitcoin_punish_timelock
        &&& self.execution_params.bitcoin_punish_timelock <= 0xffff
        &&& self.init_params matches InitParams::New { swap_amounts }
            ==> swap_amounts.btc >= 2 * TX_FEE
    }

    /// Derives the identity from the seed and prepares a resuming
    /// builder.  Fails exactly when the seed is not a valid secret key.
    pub fn new(seed: [u8; 32], execution_params: ExecutionParams, swap_id: u128,
        listen_address: u128) -> (r: Option<Builder>)
        requires
            1 <= execution_params.bitcoin_cancel_timelock,
            execution_params.bitcoin_cancel_timelock
                <= execution_params.bitcoin_punish_timelock,
            execution_params.bitcoin_punish_timelock <= 0xffff,
        ensures
            r is Some <==> crate::ecdsa::secret_key_ok(seed@),
            r matches Some(b) ==> b.spec_swap_id() == swap_id
                && b.spec_listen_address() == listen_address
                && b.spec_params() == execution_params
                && b.spec_init() is Resume
                && b.spec_peer_id() == peer_id_of(
                    crate::ecdsa::public_key_of(seed@)),
    {
        let identity = match Keypair::from_secret(seed) {
            Some(k) => k,
            None => { return None; },
        };
        let pk = identity.public();
        let peer_id = peer_id_from_key(&pk);
        Some(Builder {
            swap_id,
            identity,
            peer_id,
            execution_params,
            listen_address,
            init_params: InitParams::Resume,
        })
    }

    /// Turns the builder into one that starts a fresh swap over the
    /// given amounts.
    pub fn with_init_params(self, swap_amounts: SwapAmounts) -> (r: Builder)
        requires
            swap_amounts.btc >= 2 * TX_FEE,
        ensures
            r.spec_swap_id() == self.spec_swap_id(),
            r.spec_peer_id() == self.spec_peer_id(),
            r.spec_listen_address() == self.spec_listen_address(),
            r.spec_params() == self.spec_params(),
            r.spec_init() matches InitParams::New { swap_amounts: a } ==> a == swap_amounts,
            r.spec_init() is New,
    {
        proof {
            use_type_invariant(&self);
        }
        Builder { init_params: InitParams::New { swap_amounts }, ..self }
    }

    /// The peer id this node will present.
    pub fn peer_id(&self) -> (r: u128)
        ensures
            r == self.spec_peer_id(),
    {
        self.peer_id
    }

    /// The address this node will listen on.
    pub fn listen_address(&self) -> (r: u128)
        ensures
            r == self.spec_listen_address(),
    {
        self.listen_address
    }

    /// Draws Alice's starting state for a fresh swap: new random keys
    /// and scalars, the configured timelocks, and her two addresses.
    /// Fails only if the randomness missed the curve order.
    fn make_initial_state(&self, swap_amounts: SwapAmounts, redeem_spk: [u8; 34],
        punish_spk: [u8; 34]) -> (r: Option<AliceState>)
        requires
            swap_amounts.btc >= 2 * TX_FEE,
        ensures
            r matches Some(st) ==> st matches AliceState::Started { amounts, state0 }
                && amounts == swap_amounts && state0.btc == swap_amounts.btc
                && state0.xmr == swap_amounts.xmr
                && state0.cancel_timelock == self.spec_params().bitcoin_cancel_timelock
                && state0.punish_timelock == self.spec_params().bitcoin_punish_timelock
                && state0.redeem_spk == redeem_spk && state0.punish_spk == punish_spk
                && state0.a_public@ == state0.a.spec_public()
                && state0.btc >= 2 * TX_FEE,
    {
        proof {
            use_type_invariant(&*self);
        }
        let a = match Keypair::random() {
            Some(k) => k,
            None => { return None; },
        };
        let s_a = Scalar { bits: crate::crypto::word_of_bytes(&crate::ecdsa::random_bytes()) };
        let v_a = crate::crypto::word_of_bytes(&crate::ecdsa::random_bytes());
        let state0 = State0::new(a, s_a, v_a, swap_amounts.btc, swap_amounts.xmr,
            self.execution_params.bitcoin_cancel_timelock,
            self.execution_params.bitcoin_punish_timelock, redeem_spk, punish_spk);
        Some(AliceState::Started { amounts: swap_amounts, state0 })
    }

    /// Builds the swap: a fresh starting state for a new swap, or the
    /// state the store holds for a resumed one.  Resuming a swap that
    /// the store does not know fails with `NotFound`; resuming one that
    /// was run in Bob's role fails with `WrongDirection`.
    pub fn build(self, db: &Database<PersistedSwap>, redeem_spk: [u8; 34],
        punish_spk: [u8; 34]) -> (r: Result<Swap, ProtocolError>)
        ensures
            r matches Ok(sw) ==> sw.swap_id == self.spec_swap_id()
                && sw.execution_params == self.spec_params(),
            self.spec_init() matches InitParams::New { swap_amounts } ==> (r matches Ok(sw)
                ==> sw.state matches AliceState::Started { amounts, state0 }
                    && amounts == swap_amounts && state0.btc == swap_amounts.btc
                    && state0.xmr == swap_amounts.xmr
                    && state0.cancel_timelock == self.spec_params().bitcoin_cancel_timelock
                    && state0.punish_timelock == self.spec_params().bitcoin_punish_timelock
                    && state0.redeem_spk == redeem_spk && state0.punish_spk == punish_spk
                    && state0.a_public@ == state0.a.spec_public()
                    && state0.btc >= 2 * TX_FEE && 1 <= state0.cancel_timelock
                    && state0.cancel_timelock <= state0.punish_timelock
                    && state0.punish_timelock <= 0xffff),
            self.spec_init() is Resume ==> ((r matches Ok(sw)
                ==> db.swaps().dom().contains(self.spec_swap_id())
                    && db.swaps()[self.spec_swap_id()] == PersistedSwap::Alice(sw.state))
                && (r matches Err(e) ==> ((e == ProtocolError::NotFound
                        && !db.swaps().dom().contains(self.spec_swap_id()))
                    || (e == ProtocolError::WrongDirection
                        && db.swaps().dom().contains(self.spec_swap_id())
                        && db.swaps()[self.spec_swap_id()] is Bob)))),
    {
        proof {
            use_type_invariant(&self);
        }
        match self.init_params {
            InitParams::New { swap_amounts } => {
                match self.make_initial_state(swap_amounts, redeem_spk, punish_spk) {
                    Some(state) => Ok(Swap {
                        state,
                        execution_params: self.execution_params,
                        swap_id: self.swap_id,
                    }),
                    None => Err(ProtocolError::InvalidKey),
                }
            },
            InitParams::Resume => {
                match db.get_state(self.swap_id) {
                    Some(PersistedSwap::Alice(state)) => Ok(Swap {
                        state,
                        execution_params: self.execution_params,
                        swap_id: self.swap_id,
                    }),
                    Some(PersistedSwap::Bob(_)) => Err(ProtocolError::WrongDirection),
                    None => Err(ProtocolError::NotFound),
                }
            },
        }
    }
}

/// What Alice's network behaviour surfaces to the driver.
pub enum OutEvent {
    /// A peer connected.
    ConnectionEstablished(u128),
    /// Bob asked for a swap.
    Request(SwapRequest),
    /// The execution setup finished, well or badly.
    ExecutionSetupDone(Result<Box<State3>, ProtocolError>),
    /// Bob acknowledged the transfer proof.
    TransferProofAcknowledged,
    /// Bob's adaptor signature for the redeem arrived.
    EncryptedSignature(Box<EncryptedSignature>),
}

/// Alice's network behaviour, modeled as the queues of what she has
/// decided to send and the setup she has started.  The transport that
/// drains the queues lives outside the library.
pub struct Behaviour {
    pending_responses: Vec<(u64, SwapResponse)>,
    setup: Option<(u128, State0)>,
    transfer_proofs: Vec<(u128, TransferProof)>,
}

impl Behaviour {
    /// The queued swap responses, by response channel.
    pub closed spec fn spec_responses(self) -> Seq<(u64, SwapResponse)> {
        self.pending_responses@
    }

    /// The execution setup in progress, if any.
    pub closed spec fn spec_setup(self) -> Option<(u128, State0)> {
        self.setup
    }

    /// The queued transfer proofs, by peer.
    pub closed spec fn spec_transfer_proofs(self) -> Seq<(u128, TransferProof)> {
        self.transfer_proofs@
    }

    /// How many responses wait for the transport.
    pub fn response_count(&self) -> (r: usize)
        ensures
            r == self.spec_responses().len(),
    {
        self.pending_responses.len()
    }

    /// Whether an execution setup has been started.
    pub fn setup_started(&self) -> (r: bool)
        ensures
            r == self.spec_setup() is Some,
    {
        self.setup.is_some()
    }

    /// How many transfer proofs wait for the transport.
    pub fn transfer_proof_count(&self) -> (r: usize)
        ensures
            r == self.spec_transfer_proofs().len(),
    {
        self.transfer_proofs.len()
    }

    /// Queues Alice's response on Bob's request channel.  Alice always
    /// answers as a response to a request from Bob.
    pub fn send_swap_response(&mut self, channel: u64, swap_response: SwapResponse) -> (r:
        Result<(), ProtocolError>)
        ensures
            r is Ok,
            final(self).spec_responses() == old(self).spec_responses().push(
                (channel, swap_response)),
            final(self).spec_setup() == old(self).spec_setup(),
            final(self).spec_transfer_proofs() == old(self).spec_transfer_proofs(),
    {
        self.pending_responses.push((channel, swap_response));
        Ok(())
    }

    /// Marks the execution setup with Bob as started from the given
    /// state.
    pub fn start_execution_setup(&mut self, bob_peer_id: u128, state0: State0)
        ensures
            final(self).spec_setup() == Some((bob_peer_id, state0)),
            final(self).spec_responses() == old(self).spec_responses(),
            final(self).spec_transfer_proofs() == old(self).spec_transfer_proofs(),
    {
        self.setup = Some((bob_peer_id, state0));
    }

    /// Queues the transfer proof for Bob.
    pub fn send_transfer_proof(&mut self, bob: u128, msg: TransferProof)
        ensures
            final(self).spec_transfer_proofs() == old(self).spec_transfer_proofs().push(
                (bob, msg)),
            final(self).spec_responses() == old(self).spec_responses(),
            final(self).spec_setup() == old(self).spec_setup(),
    {
        self.transfer_proofs.push((bob, msg));
    }
}

impl Default for Behaviour {
    /// An idle behaviour: nothing queued, no setup started.
    fn default() -> (r: Behaviour)
        ensures
            r.spec_responses() == Seq::<(u64, SwapResponse)>::empty(),
            r.spec_setup() is None,
            r.spec_transfer_proofs() == Seq::<(u128, TransferProof)>::empty(),
    {
        Behaviour { pending_responses: Vec::new(), setup: None, transfer_proofs: Vec::new() }
    }
}

} // verus!
