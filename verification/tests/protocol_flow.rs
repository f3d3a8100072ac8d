//! End-to-end runs of both role machines over event traces: the happy
//! path, restarts from the store, silence on either side, and a
//! malformed proof.

use swap::alice;
use swap::bob;
use swap::crypto;
use swap::database::{Database, PersistedSwap};
use swap::ecdsa::Keypair;
use swap::protocol::{ProtocolError, SwapRequest, TransferProof};

const BTC: u64 = 1_000_000;
const XMR: u64 = 1_000_000_000_000;
const CANCEL_TIMELOCK: u32 = 10;
const PUNISH_TIMELOCK: u32 = 10;
const S_A: u64 = 77;
const S_B: u64 = 99;

fn spk(tag: u8) -> [u8; 34] {
    let mut a = [0u8; 34];
    a[0] = 0x00;
    a[1] = 0x20;
    a[2] = tag;
    a
}

fn alice0() -> alice::State0 {
    let kp = Keypair::from_secret([0x11; 32]).expect("valid secret key");
    alice::State0::new(
        kp,
        crypto::Scalar { bits: S_A },
        5150,
        BTC,
        XMR,
        CANCEL_TIMELOCK,
        PUNISH_TIMELOCK,
        spk(0x51),
        spk(0x52),
    )
}

fn bob0() -> bob::State0 {
    let kp = Keypair::from_secret([0x22; 32]).expect("valid secret key");
    bob::State0::new(
        kp,
        crypto::Scalar { bits: S_B },
        6160,
        BTC,
        XMR,
        spk(0x53),
        [0xAA; 32],
        0,
    )
}

fn handshake() -> (alice::State3, bob::State2) {
    let a0 = alice0();
    let b0 = bob0();
    let m1 = alice::swap_response(&a0);
    let (bs1, m2) = bob::process_swap_response(&b0, &m1).expect("valid response");
    let (as3, m3) = alice::process_msg2(&a0, &m2).expect("valid msg2");
    let (bs2, m4) = bob::process_msg3(&bs1, &m3).expect("valid msg3");
    let as3 = alice::process_msg4(&as3, &m4).expect("valid msg4");
    (as3, bs2)
}

fn bob_redeem_encsig(bs2: &bob::State2) -> crypto::EncryptedSignature {
    crypto::enc_sign(
        &crypto::Scalar { bits: S_B },
        crypto::word_of_bytes(&bs2.inner.redeem_digest),
        &bs2.inner.s_a_bitcoin,
    )
}

fn tp() -> TransferProof {
    TransferProof { tx_hash: [0xBB; 32], tx_key: 5150 }
}

#[test]
fn happy_path_both_sides_redeem() {
    let (as3, bs2) = handshake();
    let mut db: Database<PersistedSwap> = Database::open();

    let encsig = bob_redeem_encsig(&bs2);
    let redeem_sig = crypto::decrypt(&encsig, &crypto::Scalar { bits: S_A });

    let bob_events = vec![
        bob::BobEvent::TransferProofReceived(tp(), XMR),
        bob::BobEvent::EncSigAckReceived,
        bob::BobEvent::TxRedeemSeen(redeem_sig),
    ];
    let (bob_final, bob_acts) = bob::swap(
        bob::BobState::Negotiated(bs2, 1),
        &bob_events,
        &mut db,
        1,
    );
    assert!(matches!(bob_final, bob::BobState::XmrRedeemed));
    let mut claimed = false;
    for a in &bob_acts {
        if let bob::BobAction::ClaimXmr(s) = a {
            claimed = true;
            assert_eq!(s.bits, S_A.wrapping_add(S_B));
        }
    }
    assert!(claimed);

    let alice_events = vec![
        alice::AliceEvent::TxLockConfirmed,
        alice::AliceEvent::XmrLockConfirmed([0xBB; 32]),
        alice::AliceEvent::EncSigReceived(encsig),
        alice::AliceEvent::TxRedeemConfirmed,
    ];
    let (alice_final, alice_acts) = alice::run(
        alice::AliceState::Negotiated(as3),
        &alice_events,
        &mut db,
        2,
    );
    assert!(matches!(alice_final, alice::AliceState::BtcRedeemed));
    let mut locked_xmr = false;
    let mut redeemed = false;
    for a in &alice_acts {
        match a {
            alice::AliceAction::LockXmr(amount) => {
                locked_xmr = true;
                assert_eq!(*amount, XMR);
            }
            alice::AliceAction::BroadcastTxRedeem(txid, _sig) => {
                redeemed = true;
                assert_eq!(*txid, as3.redeem_txid);
            }
            _ => {}
        }
    }
    assert!(locked_xmr);
    assert!(redeemed);
}

#[test]
fn given_bob_restarts_after_encsig_is_sent_resume_swap() {
    let (_as3, bs2) = handshake();
    let mut db: Database<PersistedSwap> = Database::open();
    let swap_id: u128 = uuid::Uuid::new_v4().as_u128();

    let first_leg = vec![
        bob::BobEvent::TransferProofReceived(tp(), XMR),
        bob::BobEvent::EncSigAckReceived,
    ];
    let (mid, _) = bob::run_until(
        bob::BobState::Negotiated(bs2, 1),
        bob::Target::EncSigSent,
        &first_leg,
        &mut db,
        swap_id,
    );
    assert!(matches!(mid, bob::BobState::EncSigSent(..)));

    let persisted = db.get_state(swap_id).expect("state was persisted");
    let resume_state = match persisted {
        PersistedSwap::Bob(st) => st,
        PersistedSwap::Alice(_) => panic!("swap was run in Bob's role"),
    };
    assert!(matches!(resume_state, bob::BobState::EncSigSent(..)));

    let encsig = bob_redeem_encsig(&bs2);
    let redeem_sig = crypto::decrypt(&encsig, &crypto::Scalar { bits: S_A });
    let second_leg = vec![bob::BobEvent::TxRedeemSeen(redeem_sig)];
    let (bob_final, _) = bob::swap(resume_state, &second_leg, &mut db, swap_id);
    assert!(matches!(bob_final, bob::BobState::XmrRedeemed));
}

#[test]
fn given_bob_restarts_after_xmr_is_locked_resume_swap() {
    let (as3, bs2) = handshake();
    let mut db: Database<PersistedSwap> = Database::open();
    let swap_id: u128 = uuid::Uuid::new_v4().as_u128();

    let first_leg = vec![bob::BobEvent::TransferProofReceived(tp(), XMR)];
    let (mid, _) = bob::run_until(
        bob::BobState::Negotiated(bs2, 1),
        bob::Target::XmrLocked,
        &first_leg,
        &mut db,
        swap_id,
    );
    assert!(matches!(mid, bob::BobState::XmrLocked(..)));

    let resume_state = match db.get_state(swap_id).expect("state was persisted") {
        PersistedSwap::Bob(st) => st,
        PersistedSwap::Alice(_) => panic!("swap was run in Bob's role"),
    };

    let encsig = bob_redeem_encsig(&bs2);
    let redeem_sig = crypto::decrypt(&encsig, &crypto::Scalar { bits: S_A });
    let second_leg = vec![
        bob::BobEvent::EncSigAckReceived,
        bob::BobEvent::TxRedeemSeen(redeem_sig),
    ];
    let (bob_final, _) = bob::swap(resume_state, &second_leg, &mut db, swap_id);
    assert!(matches!(bob_final, bob::BobState::XmrRedeemed));

    let alice_events = vec![
        alice::AliceEvent::TxLockConfirmed,
        alice::AliceEvent::XmrLockConfirmed([0xBB; 32]),
        alice::AliceEvent::EncSigReceived(encsig),
        alice::AliceEvent::TxRedeemConfirmed,
    ];
    let (alice_final, _) = alice::run(
        alice::AliceState::Negotiated(as3),
        &alice_events,
        &mut db,
        7,
    );
    assert!(matches!(alice_final, alice::AliceState::BtcRedeemed));
}

#[test]
fn alice_silent_after_xmr_lock_ends_punished() {
    let (as3, bs2) = handshake();
    let mut db: Database<PersistedSwap> = Database::open();

    let bob_events = vec![
        bob::BobEvent::TransferProofReceived(tp(), XMR),
        bob::BobEvent::CancelTimelockExpired,
        bob::BobEvent::PunishTimelockExpired,
    ];
    let (bob_final, _) = bob::swap(bob::BobState::Negotiated(bs2, 1), &bob_events, &mut db, 1);
    assert!(matches!(bob_final, bob::BobState::Punished));

    let alice_events = vec![
        alice::AliceEvent::TxLockConfirmed,
        alice::AliceEvent::XmrLockConfirmed([0xBB; 32]),
        alice::AliceEvent::CancelTimelockExpired,
        alice::AliceEvent::PunishTimelockExpired,
    ];
    let (alice_final, alice_acts) = alice::run(
        alice::AliceState::Negotiated(as3),
        &alice_events,
        &mut db,
        2,
    );
    assert!(matches!(alice_final, alice::AliceState::BtcPunished));
    let mut punished = false;
    for a in &alice_acts {
        if let alice::AliceAction::BroadcastTxPunish(txid) = a {
            punished = true;
            assert_eq!(*txid, as3.punish_txid);
        }
    }
    assert!(punished);
}

#[test]
fn bob_silent_after_btc_lock_ends_refunded() {
    let (as3, bs2) = handshake();
    let mut db: Database<PersistedSwap> = Database::open();

    let bob_events = vec![
        bob::BobEvent::CancelTimelockExpired,
        bob::BobEvent::RefundWindowOpen,
    ];
    let (bob_final, bob_acts) = bob::swap(
        bob::BobState::Negotiated(bs2, 1),
        &bob_events,
        &mut db,
        1,
    );
    assert!(matches!(bob_final, bob::BobState::BtcRefunded));
    let mut refunded = false;
    for a in &bob_acts {
        if let bob::BobAction::BroadcastTxRefund(txid) = a {
            refunded = true;
            assert_eq!(*txid, bs2.inner.refund_txid);
        }
    }
    assert!(refunded);

    let enc_refund = crypto::enc_sign(
        &crypto::Scalar { bits: S_A },
        crypto::word_of_bytes(&as3.refund_digest),
        &as3.s_b_bitcoin,
    );
    let refund_sig = crypto::decrypt(&enc_refund, &crypto::Scalar { bits: S_B });
    let alice_events = vec![
        alice::AliceEvent::TxLockConfirmed,
        alice::AliceEvent::CancelTimelockExpired,
        alice::AliceEvent::TxRefundSeen(refund_sig),
    ];
    let (alice_final, alice_acts) = alice::run(
        alice::AliceState::Negotiated(as3),
        &alice_events,
        &mut db,
        2,
    );
    assert!(matches!(alice_final, alice::AliceState::XmrRefunded));
    let mut swept = false;
    for a in &alice_acts {
        if let alice::AliceAction::SweepXmr(s) = a {
            swept = true;
            assert_eq!(s.bits, S_A.wrapping_add(S_B));
        }
    }
    assert!(swept);
}

#[test]
fn malformed_dleq_aborts_before_lock() {
    let a0 = alice0();
    let b0 = bob0();
    let mut m1 = alice::swap_response(&a0);
    m1.dleq.witness = m1.dleq.witness.wrapping_add(1);

    match bob::process_swap_response(&b0, &m1) {
        Err(e) => assert_eq!(e, ProtocolError::InvalidProof),
        Ok(_) => panic!("a tampered proof must be rejected"),
    }

    let mut db: Database<PersistedSwap> = Database::open();
    let started = bob::BobState::Started {
        state0: b0,
        amounts: swap::SwapAmounts { btc: BTC, xmr: XMR },
        peer_id: 1,
    };
    let events = vec![bob::BobEvent::SwapResponseReceived(m1)];
    let (bob_final, bob_acts) = bob::swap(started, &events, &mut db, 1);
    assert!(matches!(bob_final, bob::BobState::SafelyAborted));
    for a in &bob_acts {
        assert!(!matches!(
            a,
            bob::BobAction::BroadcastTxLock(..)
                | bob::BobAction::BroadcastTxCancel(..)
                | bob::BobAction::BroadcastTxRefund(..)
                | bob::BobAction::ClaimXmr(..)
        ));
    }

    let m1_good = alice::swap_response(&a0);
    let (_bs1, mut m2) = bob::process_swap_response(&bob0(), &m1_good).expect("valid response");
    m2.dleq.witness = m2.dleq.witness.wrapping_add(1);
    match alice::process_msg2(&a0, &m2) {
        Err(e) => assert_eq!(e, ProtocolError::InvalidProof),
        Ok(_) => panic!("a tampered proof must be rejected"),
    }
    let alice_started = alice::AliceState::AwaitingMsg2 { state0: a0 };
    let alice_events = vec![alice::AliceEvent::Msg2Received(m2)];
    let (alice_final, alice_acts) = alice::run(alice_started, &alice_events, &mut db, 2);
    assert!(matches!(alice_final, alice::AliceState::SafelyAborted));
    for a in &alice_acts {
        assert!(!matches!(
            a,
            alice::AliceAction::LockXmr(..)
                | alice::AliceAction::BroadcastTxRedeem(..)
                | alice::AliceAction::BroadcastTxCancel(..)
                | alice::AliceAction::BroadcastTxPunish(..)
                | alice::AliceAction::SweepXmr(..)
        ));
    }
}

#[test]
fn unexpected_message_before_lock_aborts() {
    let b0 = bob0();
    let mut db: Database<PersistedSwap> = Database::open();
    let started = bob::BobState::Started {
        state0: b0,
        amounts: swap::SwapAmounts { btc: BTC, xmr: XMR },
        peer_id: 1,
    };
    let events = vec![bob::BobEvent::EncSigAckReceived];
    let (bob_final, _) = bob::swap(started, &events, &mut db, 1);
    assert!(matches!(bob_final, bob::BobState::SafelyAborted));

    let a0 = alice0();
    let started = alice::AliceState::Started {
        amounts: swap::SwapAmounts { btc: BTC, xmr: XMR },
        state0: a0,
    };
    let wrong_amounts = vec![alice::AliceEvent::SwapRequestReceived(SwapRequest {
        btc: BTC + 1,
        xmr: XMR,
    })];
    let (alice_final, _) = alice::run(started, &wrong_amounts, &mut db, 2);
    assert!(matches!(alice_final, alice::AliceState::SafelyAborted));
}

#[test]
fn full_run_from_started_through_handshake() {
    let a0 = alice0();
    let b0 = bob0();
    let mut db: Database<PersistedSwap> = Database::open();

    let m1 = alice::swap_response(&a0);
    let (bs1, m2) = bob::process_swap_response(&b0, &m1).expect("valid response");
    let (_as3, m3) = alice::process_msg2(&a0, &m2).expect("valid msg2");
    let (bs2, _m4) = bob::process_msg3(&bs1, &m3).expect("valid msg3");

    let encsig = bob_redeem_encsig(&bs2);
    let redeem_sig = crypto::decrypt(&encsig, &crypto::Scalar { bits: S_A });
    let started = bob::BobState::Started {
        state0: b0,
        amounts: swap::SwapAmounts { btc: BTC, xmr: XMR },
        peer_id: 1,
    };
    let events = vec![
        bob::BobEvent::SwapResponseReceived(m1),
        bob::BobEvent::Msg3Received(m3),
        bob::BobEvent::TransferProofReceived(tp(), XMR),
        bob::BobEvent::EncSigAckReceived,
        bob::BobEvent::TxRedeemSeen(redeem_sig),
    ];
    let (bob_final, bob_acts) = bob::swap(started, &events, &mut db, 1);
    assert!(matches!(bob_final, bob::BobState::XmrRedeemed));
    assert!(matches!(bob_acts[0], bob::BobAction::SendSwapRequest(_)));
    assert!(matches!(bob_acts[1], bob::BobAction::SendMsg2(_)));
    assert!(matches!(bob_acts[2], bob::BobAction::SendMsg4(_)));
    assert!(matches!(bob_acts[3], bob::BobAction::BroadcastTxLock(_)));
}

#[test]
fn wrong_xmr_amount_does_not_advance_bob() {
    let (_as3, bs2) = handshake();
    let mut db: Database<PersistedSwap> = Database::open();
    let events = vec![bob::BobEvent::TransferProofReceived(tp(), XMR - 1)];
    let (mid, acts) = bob::run_until(
        bob::BobState::Negotiated(bs2, 1),
        bob::Target::XmrLocked,
        &events,
        &mut db,
        3,
    );
    assert!(matches!(mid, bob::BobState::BtcLocked(..)));
    for a in &acts {
        assert!(!matches!(a, bob::BobAction::SendEncSig(_)));
    }
}

#[test]
fn state_labels_are_the_fixed_tags() {
    let (as3, bs2) = handshake();
    assert_eq!(bob::BobState::Negotiated(bs2, 1).label(), "negotiated");
    assert_eq!(bob::BobState::BtcLocked(bs2, 1).label(), "btc_locked");
    assert_eq!(bob::BobState::BtcRefunded.label(), "btc_refunded");
    assert_eq!(bob::BobState::XmrRedeemed.label(), "xmr_redeemed");
    assert_eq!(bob::BobState::Punished.label(), "punished");
    assert_eq!(bob::BobState::SafelyAborted.label(), "safely_aborted");
    assert_eq!(alice::AliceState::Negotiated(as3).label(), "negotiated");
    assert_eq!(alice::AliceState::XmrLocked(as3).label(), "xmr_locked");
    assert_eq!(alice::AliceState::BtcPunished.label(), "btc_punished");
    assert_eq!(alice::AliceState::XmrRefunded.label(), "xmr_refunded");
}

#[test]
fn store_tracks_every_reached_state() {
    let (_as3, bs2) = handshake();
    let mut db: Database<PersistedSwap> = Database::open();
    let events = vec![bob::BobEvent::TransferProofReceived(tp(), XMR)];
    let (mid, _) = bob::run_until(
        bob::BobState::Negotiated(bs2, 1),
        bob::Target::XmrLocked,
        &events,
        &mut db,
        9,
    );
    assert!(matches!(mid, bob::BobState::XmrLocked(..)));
    match db.get_state(9).expect("persisted") {
        PersistedSwap::Bob(st) => assert!(matches!(st, bob::BobState::XmrLocked(..))),
        PersistedSwap::Alice(_) => panic!("wrong role"),
    }
    assert!(db.get_state(10).is_none());
    let ids = db.list_swaps();
    assert!(ids.contains(&9));
}
