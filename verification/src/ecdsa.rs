//! ECDSA over secp256k1, through the `bitcoin` crate.
//!
//! The transaction templates sign and check real compressed-key ECDSA
//! signatures over 32-byte sighashes.  The curve operations themselves are
//! the `secp256k1` library's work; their results are named here and every
//! claim the templates make is stated over those names.

use vstd::prelude::*;

verus! {

/// Whether secp256k1 accepts a 32-byte string as a secret key.
pub uninterp spec fn secret_key_ok(sk: Seq<u8>) -> bool;

/// The serialized compressed public key of a secret key.
pub uninterp spec fn public_key_of(sk: Seq<u8>) -> Seq<u8>;

/// The compact RFC6979 signature of a digest under a secret key.
pub uninterp spec fn sig_of(sk: Seq<u8>, digest: Seq<u8>) -> Seq<u8>;

/// Whether a compact signature verifies for a public key and digest.
pub uninterp spec fn sig_valid(pk: Seq<u8>, digest: Seq<u8>, sig: Seq<u8>) -> bool;

/// Whether secp256k1 accepts 33 bytes as a compressed public key.
pub uninterp spec fn pubkey_parses(pk: Seq<u8>) -> bool;

/// Whether secp256k1 accepts 64 bytes as a compact signature.
pub uninterp spec fn sig_parses(sig: Seq<u8>) -> bool;

/// Relies on rand::random: 32 bytes drawn from the thread-local CSPRNG.
/// Nothing holds of the outcome.
#[verifier::external_body]
pub(crate) fn random_bytes() -> (r: [u8; 32]) {
    rand::random::<[u8; 32]>()
}

/// Relies on secp256k1::PublicKey::from_slice: acceptance of 33 bytes as
/// a compressed public key depends on the bytes alone.
#[verifier::external_body]
fn check_pubkey(pk: &[u8; 33]) -> (r: bool)
    ensures
        r == pubkey_parses(pk@),
{
    bitcoin::secp256k1::PublicKey::from_slice(pk).is_ok()
}

/// Relies on secp256k1::SecretKey::from_slice, which accepts exactly the
/// valid secret keys, and on secp256k1::PublicKey::from_secret_key and
/// PublicKey::serialize: the 33-byte compressed public key is a function
/// of the secret key alone, and serializing a public key and parsing the
/// bytes back round-trips, so the serialization parses.
#[verifier::external_body]
fn derive_public_key(sk: &[u8; 32]) -> (r: Option<[u8; 33]>)
    ensures
        r is Some <==> secret_key_ok(sk@),
        r matches Some(pk) ==> pk@ == public_key_of(sk@) && pubkey_parses(pk@),
{
    let secp = bitcoin::secp256k1::Secp256k1::new();
    match bitcoin::secp256k1::SecretKey::from_slice(sk) {
        Ok(s) => Some(bitcoin::secp256k1::PublicKey::from_secret_key(&secp, &s).serialize()),
        Err(_) => None,
    }
}

/// Relies on secp256k1::Secp256k1::sign_ecdsa: signing is deterministic
/// (RFC6979 nonces), and a signature produced from a valid secret key
/// verifies under that key's public key.
#[verifier::external_body]
fn ecdsa_sign(sk: &[u8; 32], digest: &[u8; 32]) -> (r: [u8; 64])
    requires
        secret_key_ok(sk@),
    ensures
        r@ == sig_of(sk@, digest@),
        sig_valid(public_key_of(sk@), digest@, r@),
{
    let secp = bitcoin::secp256k1::Secp256k1::new();
    let s = bitcoin::secp256k1::SecretKey::from_slice(sk).expect("valid by precondition");
    let m = bitcoin::secp256k1::Message::from_digest(*digest);
    secp.sign_ecdsa(&m, &s).serialize_compact()
}

/// Relies on secp256k1::Secp256k1::verify_ecdsa and on
/// secp256k1::ecdsa::Signature::from_compact: acceptance is a function of
/// public key, digest and signature alone, and a signature that verifies
/// was in particular parsed, so it parses as a compact signature.
#[verifier::external_body]
fn ecdsa_verify(pk: &[u8; 33], digest: &[u8; 32], sig: &[u8; 64]) -> (r: bool)
    ensures
        r == sig_valid(pk@, digest@, sig@),
        r ==> sig_parses(sig@),
{
    let secp = bitcoin::secp256k1::Secp256k1::new();
    let p = match bitcoin::secp256k1::PublicKey::from_slice(pk) {
        Ok(p) => p,
        Err(_) => return false,
    };
    let s = match bitcoin::secp256k1::ecdsa::Signature::from_compact(sig) {
        Ok(s) => s,
        Err(_) => return false,
    };
    let m = bitcoin::secp256k1::Message::from_digest(*digest);
    secp.verify_ecdsa(&m, &s, &p).is_ok()
}

/// A secp256k1 key pair.  The invariant ties the stored public key to the
/// secret key, so signatures made with it verify under `public()`.
#[derive(Clone, Copy)]
pub struct Keypair {
    sk: [u8; 32],
    pk: [u8; 33],
}

impl Keypair {
    /// The serialized public key this pair will sign under.
    pub closed spec fn spec_public(self) -> Seq<u8> {
        self.pk@
    }

    /// The secret key bytes, visible to specifications only.
    pub closed spec fn spec_secret(self) -> Seq<u8> {
        self.sk@
    }

    #[verifier::type_invariant]
    spec fn wf(self) -> bool {
        secret_key_ok(self.sk@) && self.pk@ == public_key_of(self.sk@)
            && pubkey_parses(self.pk@)
    }

    /// Builds the key pair of a 32-byte secret, if it is a valid
    /// secp256k1 secret key.
    pub fn from_secret(sk: [u8; 32]) -> (r: Option<Keypair>)
        ensures
            r is Some <==> secret_key_ok(sk@),
            r matches Some(kp) ==> kp.spec_secret() == sk@
                && kp.spec_public() == public_key_of(sk@),
    {
        match derive_public_key(&sk) {
            Some(pk) => Some(Keypair { sk, pk }),
            None => None,
        }
    }

    /// Draws a fresh random key pair.  Fails only if the randomness fell
    /// outside the curve order, which the caller may simply retry.
    pub fn random() -> (r: Option<Keypair>)
        ensures
            r matches Some(kp) ==> kp.spec_public() == public_key_of(kp.spec_secret()),
    {
        let sk = random_bytes();
        Keypair::from_secret(sk)
    }

    /// The compressed public key.
    pub fn public(&self) -> (r: [u8; 33])
        ensures
            r@ == self.spec_public(),
    {
        proof {
            use_type_invariant(&*self);
        }
        self.pk
    }

    /// Signs a 32-byte digest; the result verifies under `public()`.
    pub fn sign(&self, digest: &[u8; 32]) -> (r: [u8; 64])
        ensures
            r@ == sig_of(self.spec_secret(), digest@),
            sig_valid(self.spec_public(), digest@, r@),
    {
        proof {
            use_type_invariant(&*self);
        }
        ecdsa_sign(&self.sk, digest)
    }
}

/// Checks a compact signature against a public key and digest.  A
/// signature that verifies in particular parses.
pub fn verify_sig(pk: &[u8; 33], digest: &[u8; 32], sig: &[u8; 64]) -> (r: bool)
    ensures
        r == sig_valid(pk@, digest@, sig@),
        r ==> sig_parses(sig@),
{
    ecdsa_verify(pk, digest, sig)
}

/// A compressed secp256k1 public key whose encoding is known to parse.
/// Counterparty keys enter through `from_bytes`, which rejects anything
/// the curve library would reject; one's own key comes from a `Keypair`.
#[derive(Clone, Copy, Debug)]
pub struct PubKey {
    bytes: [u8; 33],
}

impl PubKey {
    /// The serialized key, visible to specifications.
    pub closed spec fn spec_bytes(self) -> Seq<u8> {
        self.bytes@
    }

    #[verifier::type_invariant]
    spec fn wf(self) -> bool {
        pubkey_parses(self.bytes@)
    }

    /// Accepts 33 bytes as a public key exactly when the curve library
    /// parses them.
    pub fn from_bytes(bytes: [u8; 33]) -> (r: Option<PubKey>)
        ensures
            r is Some <==> pubkey_parses(bytes@),
            r matches Some(k) ==> k.spec_bytes() == bytes@,
    {
        if check_pubkey(&bytes) {
            Some(PubKey { bytes })
        } else {
            None
        }
    }

    /// The serialized key bytes; by construction they parse.
    pub fn bytes(&self) -> (r: [u8; 33])
        ensures
            r@ == self.spec_bytes(),
            pubkey_parses(r@),
    {
        proof {
            use_type_invariant(&*self);
        }
        self.bytes
    }
}

impl Keypair {
    /// The public key as a checked `PubKey`.
    pub fn public_key(&self) -> (r: PubKey)
        ensures
            r.spec_bytes() == self.spec_public(),
    {
        proof {
            use_type_invariant(&*self);
        }
        PubKey { bytes: self.pk }
    }
}

} // verus!
