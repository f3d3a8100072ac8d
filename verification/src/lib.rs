//! Core protocol engine of a trustless BTC/XMR atomic swap.
//!
//! Two mutually distrusting parties, Alice (holds XMR, wants BTC) and Bob
//! (holds BTC, wants XMR), exchange funds with no custodian.  Adaptor
//! signatures on the Bitcoin side and a split spend key on the Monero side
//! tie the two chains together; a two-level timelock ladder
//! (cancel, then refund or punish) bounds how long either party can stall.
//!
//! The crate verifies the protocol logic: the cryptographic model, the
//! deterministic transaction templates, the six-message execution setup,
//! both role state machines and the driver that steps them, and the
//! persistence rules that make a crashed swap resumable.  Chain nodes,
//! wallets and the peer-to-peer transport are outside collaborators; the
//! driver consumes the events they produce as plain values.

use vstd::prelude::*;

pub mod crypto;
pub mod ecdsa;
pub mod script;
pub mod transactions;
pub mod protocol;
pub mod database;
pub mod bob;
pub mod alice;
pub mod message2;

verus! {

/// Miner fee, in satoshi, paid by each transaction that spends from the
/// shared output family.
pub const TX_FEE: u64 = 10_000;

/// The pair of amounts a swap trades: satoshi against piconero.
#[derive(Clone, Copy, PartialEq, Eq, Structural, Debug)]
pub struct SwapAmounts {
    /// Bitcoin amount in satoshi.
    pub btc: u64,
    /// Monero amount in piconero.
    pub xmr: u64,
}

} // verus!
