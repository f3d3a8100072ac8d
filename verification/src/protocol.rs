//! The six-message execution setup and its wire messages.
//!
//! Message 0 is Bob's swap request; message 1 Alice's response with her
//! keys, commitments and proof; message 2 Bob's keys, proof and lock
//! funding; message 3 Alice's partial signatures on the recovery family;
//! message 4 Bob's; message 5 is Bob broadcasting the lock transaction,
//! which reaches Alice on chain rather than over the wire.  Each receiver
//! validates what it is handed; any failed proof, key or signature aborts
//! the handshake before anything is published.
//!
//! Addresses travel as 34-byte pay-to-witness-script-hash script-pubkeys.
//! The message fields hold commitments and proofs in the secret scalars'
//! stead; that the commitments reveal nothing about the scalars is a
//! property of the real curves, outside what the algebraic model states.

use vstd::prelude::*;

use crate::crypto::{dleq_verifies, DleqProof, EdPoint, EncryptedSignature, SecpPoint};
use crate::ecdsa::pubkey_parses;

verus! {

/// Why a handshake message was rejected.
#[derive(Clone, Copy, PartialEq, Eq, Structural, Debug)]
pub enum ProtocolError {
    /// A cross-curve DLEQ proof did not verify.
    InvalidProof,
    /// A compressed public key did not parse.
    InvalidKey,
    /// A partial signature did not verify for its digest.
    InvalidSignature,
    /// The timelocks were out of range or out of order.
    InvalidTimelocks,
    /// The proposed amounts were not the ones agreed on.
    AmountMismatch,
    /// A message arrived that the current state does not expect.
    UnexpectedMessage,
    /// A persisted swap belongs to the other role.
    WrongDirection,
    /// No swap is persisted under the given id.
    NotFound,
}

/// Message 0: Bob proposes the amounts.
#[derive(Clone, Copy, PartialEq, Eq, Structural, Debug)]
pub struct SwapRequest {
    /// Bitcoin amount in satoshi.
    pub btc: u64,
    /// Monero amount in piconero.
    pub xmr: u64,
}

/// Message 1: Alice's public data.
#[derive(Clone, Copy, Debug)]
pub struct SwapResponse {
    /// Alice's Bitcoin public key `A`.
    pub a: [u8; 33],
    /// Commitment to `s_a` on the secp256k1 side.
    pub s_a_bitcoin: SecpPoint,
    /// Commitment to `s_a` on the Ed25519 side.
    pub s_a_monero: EdPoint,
    /// Alice's private view key half, shared by design.
    pub v_a: u64,
    /// Proof that both commitments hide one scalar.
    pub dleq: DleqProof,
    /// Script-pubkey of Alice's redeem address.
    pub redeem_spk: [u8; 34],
    /// Script-pubkey of Alice's punish address.
    pub punish_spk: [u8; 34],
    /// Blocks after lock confirmation until the cancel spend.
    pub cancel_timelock: u32,
    /// Blocks after cancel confirmation until the punish spend.
    pub punish_timelock: u32,
}

/// Message 2: Bob's public data and the lock funding.
#[derive(Clone, Copy, Debug)]
pub struct ExecutionSetupMsg2 {
    /// Bob's Bitcoin public key `B`.
    pub b: [u8; 33],
    /// Commitment to `s_b` on the secp256k1 side.
    pub s_b_bitcoin: SecpPoint,
    /// Commitment to `s_b` on the Ed25519 side.
    pub s_b_monero: EdPoint,
    /// Bob's private view key half, shared by design.
    pub v_b: u64,
    /// Proof that both commitments hide one scalar.
    pub dleq: DleqProof,
    /// Script-pubkey of Bob's refund address.
    pub refund_spk: [u8; 34],
    /// The outpoint Bob funds the lock transaction from.
    pub fund_txid: [u8; 32],
    /// Output index of the funding outpoint.
    pub fund_vout: u32,
}

/// Message 3: Alice's partial signatures on the recovery family.
#[derive(Clone, Copy, Debug)]
pub struct ExecutionSetupMsg3 {
    /// Alice's signature on the cancel transaction.
    pub sig_cancel_a: [u8; 64],
    /// Alice's refund signature, adaptor-encrypted under `S_b`, so that
    /// Bob's use of it on chain reveals `s_b` to Alice.
    pub enc_refund_a: EncryptedSignature,
}

/// Message 4: Bob's partial signatures on the recovery family.
#[derive(Clone, Copy, Debug)]
pub struct ExecutionSetupMsg4 {
    /// Bob's signature on the cancel transaction.
    pub sig_cancel_b: [u8; 64],
    /// Bob's signature on the punish transaction.
    pub sig_punish_b: [u8; 64],
}

/// Alice's notice that the Monero lock is on chain.
#[derive(Clone, Copy, Debug)]
pub struct TransferProof {
    /// Hash of the Monero lock transaction.
    pub tx_hash: [u8; 32],
    /// The per-transaction key Bob needs to watch the output.
    pub tx_key: u64,
}

/// What Bob checks before accepting message 1: the proof ties the two
/// commitments to one scalar, the key parses, and the timelocks are
/// ordered and within the 16-bit relative-timelock range.
pub open spec fn valid_swap_response(m: SwapResponse) -> bool {
    &&& dleq_verifies(m.dleq, m.s_a_bitcoin, m.s_a_monero)
    &&& pubkey_parses(m.a@)
    &&& 1 <= m.cancel_timelock
    &&& m.cancel_timelock <= m.punish_timelock
    &&& m.punish_timelock <= 0xffff
}

/// What Alice checks before accepting message 2.
pub open spec fn valid_msg2(m: ExecutionSetupMsg2) -> bool {
    &&& dleq_verifies(m.dleq, m.s_b_bitcoin, m.s_b_monero)
    &&& pubkey_parses(m.b@)
}

} // verus!
