//! Algebraic model of the cross-curve primitives.
//!
//! The swap needs scalars that live on both secp256k1 and Ed25519, a
//! discrete-log-equality (DLEQ) proof connecting the two commitments of one
//! scalar, and ECDSA adaptor signatures whose completion leaks the adaptor
//! scalar.  This module models that algebra over the additive group of
//! 64-bit words: commitments are injective maps, proofs carry their
//! witness, and completing an adaptor signature adds the decryption scalar
//! so that recovery can subtract it back out.  The protocol layer reads
//! only the interface proved here; it never looks inside a commitment.

use vstd::prelude::*;

verus! {

/// Addition in the model group: the sum of two words modulo 2^64.
pub open spec fn wrap_add(a: u64, b: u64) -> u64 {
    ((a + b) % 0x1_0000_0000_0000_0000) as u64
}

/// Subtraction in the model group, the inverse of `wrap_add`.
pub open spec fn wrap_sub(a: u64, b: u64) -> u64 {
    ((a + 0x1_0000_0000_0000_0000 - b) % 0x1_0000_0000_0000_0000) as u64
}

/// A secret scalar, embeddable in both curves of the model.
#[derive(Clone, Copy, PartialEq, Eq, Structural, Debug)]
pub struct Scalar {
    pub bits: u64,
}

/// Commitment to a scalar on the secp256k1 side of the model.
#[derive(Clone, Copy, PartialEq, Eq, Structural, Debug)]
pub struct SecpPoint {
    pub coord: u64,
}

/// Commitment to a scalar on the Ed25519 side of the model.
#[derive(Clone, Copy, PartialEq, Eq, Structural, Debug)]
pub struct EdPoint {
    pub coord: u64,
}

/// The secp256k1-side commitment of `s`: injective by construction.
pub open spec fn secp_commit_spec(s: u64) -> SecpPoint {
    SecpPoint { coord: s }
}

/// The Ed25519-side commitment of `s`: injective by construction.
pub open spec fn ed_commit_spec(s: u64) -> EdPoint {
    EdPoint { coord: s }
}

/// Commits a scalar on the secp256k1 side.
pub fn secp_commit(s: &Scalar) -> (p: SecpPoint)
    ensures
        p == secp_commit_spec(s.bits),
{
    SecpPoint { coord: s.bits }
}

/// Commits a scalar on the Ed25519 side.
pub fn ed_commit(s: &Scalar) -> (p: EdPoint)
    ensures
        p == ed_commit_spec(s.bits),
{
    EdPoint { coord: s.bits }
}

/// Adds two scalars; the sum of the two halves of the Monero spend key.
pub fn scalar_add(a: &Scalar, b: &Scalar) -> (r: Scalar)
    ensures
        r.bits == wrap_add(a.bits, b.bits),
{
    let sum: u128 = a.bits as u128 + b.bits as u128;
    Scalar { bits: (sum % 0x1_0000_0000_0000_0000) as u64 }
}

/// A cross-curve DLEQ proof.  In the model the proof carries the witness
/// scalar; verification checks it against both commitments.
#[derive(Clone, Copy, PartialEq, Eq, Structural, Debug)]
pub struct DleqProof {
    pub witness: u64,
}

/// Produces the DLEQ proof for a scalar.
pub fn dleq_prove(s: &Scalar) -> (p: DleqProof)
    ensures
        p.witness == s.bits,
{
    DleqProof { witness: s.bits }
}

/// Whether `proof` ties `ps` and `pe` to one common scalar.
pub open spec fn dleq_verifies(proof: DleqProof, ps: SecpPoint, pe: EdPoint) -> bool {
    ps == secp_commit_spec(proof.witness) && pe == ed_commit_spec(proof.witness)
}

/// Verifies a DLEQ proof against the two commitments.
pub fn dleq_verify(proof: &DleqProof, ps: &SecpPoint, pe: &EdPoint) -> (ok: bool)
    ensures
        ok == dleq_verifies(*proof, *ps, *pe),
{
    ps.coord == proof.witness && pe.coord == proof.witness
}

/// DLEQ soundness: a proof verifies only if the two commitments were made
/// from one and the same scalar.  Equivalently, whenever the commitments do
/// not share a scalar, every proof is rejected.
pub proof fn lemma_dleq_soundness(proof: DleqProof, ps: SecpPoint, pe: EdPoint)
    ensures
        dleq_verifies(proof, ps, pe) ==> exists|s: u64|
            ps == secp_commit_spec(s) && pe == ed_commit_spec(s),
        (forall|s: u64| !(ps == secp_commit_spec(s) && pe == ed_commit_spec(s)))
            ==> !dleq_verifies(proof, ps, pe),
{
    if dleq_verifies(proof, ps, pe) {
        assert(ps == secp_commit_spec(proof.witness) && pe == ed_commit_spec(proof.witness));
    }
}

/// DLEQ completeness: the proof made from a scalar verifies against that
/// scalar's own pair of commitments.
pub proof fn lemma_dleq_completeness(s: Scalar)
    ensures
        dleq_verifies(DleqProof { witness: s.bits }, secp_commit_spec(s.bits),
            ed_commit_spec(s.bits)),
{
}

/// The 64-bit word a 32-byte digest contributes to the adaptor model:
/// its first eight bytes, little endian.
pub open spec fn word_of(s: Seq<u8>) -> u64 {
    if s.len() >= 8 {
        (s[0] + s[1] * 0x100 + s[2] * 0x1_0000 + s[3] * 0x100_0000 + s[4] * 0x1_0000_0000
            + s[5] * 0x100_0000_0000 + s[6] * 0x1_0000_0000_0000
            + s[7] * 0x100_0000_0000_0000) as u64
    } else {
        0
    }
}

/// Folds a 32-byte digest into the model's word size.
pub fn word_of_bytes(d: &[u8; 32]) -> (r: u64)
    ensures
        r == word_of(d@),
{
    d[0] as u64 + d[1] as u64 * 0x100 + d[2] as u64 * 0x1_0000 + d[3] as u64 * 0x100_0000
        + d[4] as u64 * 0x1_0000_0000 + d[5] as u64 * 0x100_0000_0000
        + d[6] as u64 * 0x1_0000_0000_0000 + d[7] as u64 * 0x100_0000_0000_0000
}

/// An adaptor (encrypted) signature: a pre-signature under an encryption
/// point.  Completing it requires the point's scalar, and the completed
/// signature together with the pre-signature reveals that scalar.
#[derive(Clone, Copy, PartialEq, Eq, Structural, Debug)]
pub struct EncryptedSignature {
    pub presig: u64,
}

/// A completed adaptor signature.
#[derive(Clone, Copy, PartialEq, Eq, Structural, Debug)]
pub struct CompletedSignature {
    pub value: u64,
}

/// The pre-signature the model assigns to a signer, digest and encryption
/// point.
pub open spec fn enc_sign_spec(sk: u64, digest: u64, enc_key: SecpPoint) -> EncryptedSignature {
    EncryptedSignature { presig: wrap_add(sk ^ digest, enc_key.coord) }
}

/// Produces the adaptor signature of `digest` under `enc_key`.
pub fn enc_sign(sk: &Scalar, digest: u64, enc_key: &SecpPoint) -> (es: EncryptedSignature)
    ensures
        es == enc_sign_spec(sk.bits, digest, *enc_key),
{
    let mix: u64 = sk.bits ^ digest;
    let sum: u128 = mix as u128 + enc_key.coord as u128;
    EncryptedSignature { presig: (sum % 0x1_0000_0000_0000_0000) as u64 }
}

/// The completed signature obtained by decrypting `es` with `t`.
pub open spec fn decrypt_spec(es: EncryptedSignature, t: u64) -> CompletedSignature {
    CompletedSignature { value: wrap_add(es.presig, t) }
}

/// Decrypts an adaptor signature with the scalar of its encryption point.
pub fn decrypt(es: &EncryptedSignature, t: &Scalar) -> (sig: CompletedSignature)
    ensures
        sig == decrypt_spec(*es, t.bits),
{
    let sum: u128 = es.presig as u128 + t.bits as u128;
    CompletedSignature { value: (sum % 0x1_0000_0000_0000_0000) as u64 }
}

/// The scalar revealed by a pre-signature and its completion.
pub open spec fn recover_spec(es: EncryptedSignature, sig: CompletedSignature) -> Scalar {
    Scalar { bits: wrap_sub(sig.value, es.presig) }
}

/// Recovers the decryption scalar from an adaptor signature and the
/// completed signature derived from it.
pub fn recover(es: &EncryptedSignature, sig: &CompletedSignature) -> (t: Scalar)
    ensures
        t == recover_spec(*es, *sig),
        sig == decrypt_spec(*es, t.bits),
{
    let diff: u128 = sig.value as u128 + 0x1_0000_0000_0000_0000u128 - es.presig as u128;
    let t = Scalar { bits: (diff % 0x1_0000_0000_0000_0000) as u64 };
    proof {
        lemma_wrap_roundtrip(es.presig, t.bits);
    }
    t
}

/// Round trip of the group operations: subtracting after adding gives the
/// original word back, and vice versa.
pub proof fn lemma_wrap_roundtrip(a: u64, b: u64)
    ensures
        wrap_sub(wrap_add(a, b), a) == b,
        wrap_add(a, wrap_sub(b, a)) == b,
{
}

/// The adaptor guarantee: recovering from an adaptor signature and its own
/// decryption yields exactly the decryption scalar, for every signer,
/// digest and scalar.
pub proof fn lemma_adaptor_recover(sk: u64, digest: u64, t: u64)
    ensures
        recover_spec(enc_sign_spec(sk, digest, secp_commit_spec(t)),
            decrypt_spec(enc_sign_spec(sk, digest, secp_commit_spec(t)), t))
            == (Scalar { bits: t }),
{
    let es = enc_sign_spec(sk, digest, secp_commit_spec(t));
    lemma_wrap_roundtrip(es.presig, t);
}

} // verus!
