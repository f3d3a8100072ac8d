//! Component-level checks: the cryptographic model, real signatures, the
//! transaction templates, the store, the builder and the responder.

use swap::alice;
use swap::bob;
use swap::crypto;
use swap::database::{Database, PersistedSwap};
use swap::ecdsa::{verify_sig, Keypair, PubKey};
use swap::message2;
use swap::protocol::ProtocolError;
use swap::transactions::{TemplateError, TxCancel, TxLock, TxPunish, TxRedeem, TxRefund};

const BTC: u64 = 1_000_000;
const XMR: u64 = 1_000_000_000_000;

fn spk(tag: u8) -> [u8; 34] {
    let mut a = [0u8; 34];
    a[0] = 0x00;
    a[1] = 0x20;
    a[2] = tag;
    a
}

fn keys() -> (Keypair, Keypair) {
    (
        Keypair::from_secret([0x11; 32]).expect("valid secret key"),
        Keypair::from_secret([0x22; 32]).expect("valid secret key"),
    )
}

fn family() -> (Keypair, Keypair, TxLock, TxCancel, TxRedeem, TxRefund, TxPunish) {
    let (a, b) = keys();
    let lock = TxLock::new(&a.public_key(), &b.public_key(), [0xAA; 32], 0, BTC, 10);
    let cancel = TxCancel::new(&lock, 10);
    let redeem = TxRedeem::new(&lock, spk(0x51).to_vec());
    let refund = TxRefund::new(&cancel, spk(0x53).to_vec());
    let punish = TxPunish::new(&cancel, &spk(0x52).to_vec(), 10);
    (a, b, lock, cancel, redeem, refund, punish)
}

#[test]
fn dleq_completeness() {
    let s = crypto::Scalar { bits: 12345 };
    let proof = crypto::dleq_prove(&s);
    let ps = crypto::secp_commit(&s);
    let pe = crypto::ed_commit(&s);
    assert!(crypto::dleq_verify(&proof, &ps, &pe));
}

#[test]
fn dleq_rejects_unequal_scalars() {
    let s = crypto::Scalar { bits: 12345 };
    let t = crypto::Scalar { bits: 54321 };
    let proof = crypto::dleq_prove(&s);
    let ps = crypto::secp_commit(&s);
    let pe_other = crypto::ed_commit(&t);
    assert!(!crypto::dleq_verify(&proof, &ps, &pe_other));

    let mut tampered = proof;
    tampered.witness = tampered.witness.wrapping_add(1);
    assert!(!crypto::dleq_verify(&tampered, &ps, &crypto::ed_commit(&s)));
}

#[test]
fn adaptor_recovery_round_trip() {
    let sk = crypto::Scalar { bits: 0xDEAD };
    let t = crypto::Scalar { bits: 0xBEEF };
    let enc_key = crypto::secp_commit(&t);
    let es = crypto::enc_sign(&sk, 0xC0FFEE, &enc_key);
    let sig = crypto::decrypt(&es, &t);
    let recovered = crypto::recover(&es, &sig);
    assert_eq!(recovered, t);
}

#[test]
fn scalar_addition_wraps() {
    let a = crypto::Scalar { bits: u64::MAX };
    let b = crypto::Scalar { bits: 2 };
    assert_eq!(crypto::scalar_add(&a, &b).bits, 1);
}

#[test]
fn sign_verify_round_trip() {
    let (a, _) = keys();
    let digest = [0x42; 32];
    let sig = a.sign(&digest);
    assert!(verify_sig(&a.public(), &digest, &sig));
    let other = [0x43; 32];
    assert!(!verify_sig(&a.public(), &other, &sig));
}

#[test]
fn pubkey_parsing() {
    let (a, b) = keys();
    assert!(PubKey::from_bytes(a.public()).is_some());
    assert!(PubKey::from_bytes([0u8; 33]).is_none());
    assert_ne!(a.public(), b.public());
}

#[test]
fn template_amounts_step_down_by_fee() {
    let (_, _, lock, cancel, redeem, refund, punish) = family();
    assert_eq!(lock.btc(), BTC);
    assert_eq!(cancel.amount(), BTC - swap::TX_FEE);
    assert_eq!(redeem.amount(), BTC - swap::TX_FEE);
    assert_eq!(refund.amount(), BTC - 2 * swap::TX_FEE);
    assert_eq!(punish.amount(), BTC - 2 * swap::TX_FEE);
}

#[test]
fn template_derivation_is_deterministic() {
    let (_, _, lock1, cancel1, redeem1, _, _) = family();
    let (_, _, lock2, cancel2, redeem2, _, _) = family();
    assert_eq!(lock1.txid(), lock2.txid());
    assert_eq!(cancel1.txid(), cancel2.txid());
    assert_eq!(redeem1.txid(), redeem2.txid());
    assert_eq!(cancel1.digest(), cancel2.digest());
}

#[test]
fn template_derivation_depends_on_inputs() {
    let (a, b) = keys();
    let lock1 = TxLock::new(&a.public_key(), &b.public_key(), [0xAA; 32], 0, BTC, 10);
    let lock2 = TxLock::new(&a.public_key(), &b.public_key(), [0xAA; 32], 0, BTC + 1, 10);
    let lock3 = TxLock::new(&a.public_key(), &b.public_key(), [0xAA; 32], 0, BTC, 11);
    assert_ne!(lock1.txid(), lock2.txid());
    assert_ne!(lock1.txid(), lock3.txid());

    let redeem1 = TxRedeem::new(&lock1, spk(0x51).to_vec());
    let redeem2 = TxRedeem::new(&lock1, spk(0x61).to_vec());
    assert_ne!(redeem1.digest(), redeem2.digest());
    assert_ne!(redeem1.digest(), lock1.txid());
}

#[test]
fn cancel_completes_with_valid_signatures() {
    let (a, b, _, cancel, _, _, _) = family();
    let digest = cancel.digest();
    let sig_a = a.sign(&digest);
    let sig_b = b.sign(&digest);
    let tx = cancel.complete(&sig_a, &sig_b).expect("both signatures verify");
    assert!(tx.len() > 100);
}

#[test]
fn cancel_rejects_wrong_signature() {
    let (a, b, _, cancel, redeem, _, _) = family();
    let wrong = a.sign(&redeem.digest());
    let good = b.sign(&cancel.digest());
    assert_eq!(
        cancel.complete(&wrong, &good).unwrap_err(),
        TemplateError::Unsatisfied
    );
}

#[test]
fn redeem_and_refund_complete() {
    let (a, b, _, _, redeem, refund, _) = family();
    let redeem_tx = redeem
        .complete(&a.sign(&redeem.digest()), &b.sign(&redeem.digest()))
        .expect("both signatures verify");
    let refund_tx = refund
        .complete(&a.sign(&refund.digest()), &b.sign(&refund.digest()))
        .expect("both signatures verify");
    assert!(redeem_tx.len() > 100);
    assert!(refund_tx.len() > 100);
    assert_ne!(redeem_tx, refund_tx);
}

#[test]
fn punish_completes_with_alice_key_and_bob_signature() {
    let (a, b, _, _, _, _, punish) = family();
    let sig_bob = b.sign(&punish.digest());
    let tx = punish.complete(&sig_bob, &a).expect("signatures verify");
    assert!(tx.len() > 100);

    let bad = b.sign(&[0x99; 32]);
    assert_eq!(punish.complete(&bad, &a).unwrap_err(), TemplateError::Unsatisfied);
}

#[test]
fn store_reads_back_latest_write() {
    let mut db: Database<u64> = Database::open();
    assert!(db.get_state(1).is_none());
    db.insert_latest_state(1, 10);
    db.insert_latest_state(2, 20);
    db.insert_latest_state(1, 11);
    assert_eq!(db.get_state(1), Some(11));
    assert_eq!(db.get_state(2), Some(20));
    assert!(db.get_state(3).is_none());
    let ids = db.list_swaps();
    assert!(ids.contains(&1));
    assert!(ids.contains(&2));
    assert!(!ids.contains(&3));
}

#[test]
fn builder_starts_and_resumes() {
    let params = alice::ExecutionParams {
        bitcoin_cancel_timelock: 10,
        bitcoin_punish_timelock: 10,
    };
    let db: Database<PersistedSwap> = Database::open();

    let builder = alice::Builder::new([0x33; 32], params, 7, 9).expect("valid seed");
    assert_eq!(builder.listen_address(), 9);
    let peer = builder.peer_id();
    let builder2 = alice::Builder::new([0x33; 32], params, 8, 9).expect("valid seed");
    assert_eq!(peer, builder2.peer_id());

    let amounts = swap::SwapAmounts { btc: BTC, xmr: XMR };
    let sw = builder
        .with_init_params(amounts)
        .build(&db, spk(0x51), spk(0x52))
        .expect("fresh swap");
    assert_eq!(sw.swap_id, 7);
    assert!(matches!(sw.state, alice::AliceState::Started { .. }));

    let resume = alice::Builder::new([0x33; 32], params, 7, 9).expect("valid seed");
    match resume.build(&db, spk(0x51), spk(0x52)) {
        Err(e) => assert_eq!(e, ProtocolError::NotFound),
        Ok(_) => panic!("an empty store has nothing to resume"),
    }

    let mut db2: Database<PersistedSwap> = Database::open();
    db2.insert_latest_state(7, PersistedSwap::Alice(alice::AliceState::SafelyAborted));
    let resume = alice::Builder::new([0x33; 32], params, 7, 9).expect("valid seed");
    let sw = resume.build(&db2, spk(0x51), spk(0x52)).expect("resumed");
    assert!(matches!(sw.state, alice::AliceState::SafelyAborted));

    db2.insert_latest_state(7, PersistedSwap::Bob(bob::BobState::SafelyAborted));
    let resume = alice::Builder::new([0x33; 32], params, 7, 9).expect("valid seed");
    match resume.build(&db2, spk(0x51), spk(0x52)) {
        Err(e) => assert_eq!(e, ProtocolError::WrongDirection),
        Ok(_) => panic!("a swap persisted in Bob's role must not resume as Alice"),
    }
}

#[test]
fn behaviour_queues_what_it_is_asked_to_send() {
    let mut behaviour = alice::Behaviour::default();
    let a0 = alice::State0::new(
        Keypair::from_secret([0x11; 32]).expect("valid secret key"),
        crypto::Scalar { bits: 1 },
        2,
        BTC,
        XMR,
        10,
        10,
        spk(0x51),
        spk(0x52),
    );
    let response = alice::swap_response(&a0);
    assert_eq!(behaviour.response_count(), 0);
    assert!(!behaviour.setup_started());
    behaviour.send_swap_response(4, response).expect("queued");
    assert_eq!(behaviour.response_count(), 1);
    behaviour.start_execution_setup(11, a0);
    assert!(behaviour.setup_started());
    behaviour.send_transfer_proof(
        11,
        swap::protocol::TransferProof { tx_hash: [0xBB; 32], tx_key: 2 },
    );
    assert_eq!(behaviour.transfer_proof_count(), 1);
}

#[test]
fn message2_responder_flow() {
    let mut m2 = message2::Message2::default();
    assert!(m2.poll().is_none());
    assert_eq!(m2.reply_count(), 0);

    let a0 = alice::State0::new(
        Keypair::from_secret([0x11; 32]).expect("valid secret key"),
        crypto::Scalar { bits: 1 },
        2,
        BTC,
        XMR,
        10,
        10,
        spk(0x51),
        spk(0x52),
    );
    let b0 = bob::State0::new(
        Keypair::from_secret([0x22; 32]).expect("valid secret key"),
        crypto::Scalar { bits: 3 },
        4,
        BTC,
        XMR,
        spk(0x53),
        [0xAA; 32],
        0,
    );
    let m1 = alice::swap_response(&a0);
    let (_s1, msg2) = bob::process_swap_response(&b0, &m1).expect("valid response");

    m2.inject_event(message2::InboundEvent::Request { request: msg2, channel: 5 })
        .expect("requests are accepted");
    assert_eq!(m2.reply_count(), 1);
    assert!(matches!(m2.poll(), Some(message2::OutEvent::Msg(_))));
    assert!(m2.poll().is_none());

    assert_eq!(
        m2.inject_event(message2::InboundEvent::Response).unwrap_err(),
        ProtocolError::UnexpectedMessage
    );
    m2.inject_event(message2::InboundEvent::InboundFailure).expect("survived");
    m2.inject_event(message2::InboundEvent::OutboundFailure).expect("survived");
    assert_eq!(m2.failure_count(), 2);
}

#[test]
fn word_of_bytes_reads_first_eight_bytes() {
    let mut d = [0u8; 32];
    d[0] = 1;
    d[1] = 2;
    assert_eq!(crypto::word_of_bytes(&d), 1 + 2 * 0x100);
    d[31] = 0xFF;
    assert_eq!(crypto::word_of_bytes(&d), 1 + 2 * 0x100);
}
