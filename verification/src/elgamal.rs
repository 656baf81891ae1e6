//! The native ElGamal scheme over the model group.
//!
//! This is the reference relation that the circuit mirrors: key
//! generation, encryption and decryption as plain computations, each
//! with an exact contract, together with the proof that decryption
//! inverts encryption.

use vstd::prelude::*;

verus! {

use vstd::arithmetic::div_mod::lemma_small_mod;
use vstd::arithmetic::div_mod::lemma_mod_bound;
use vstd::arithmetic::div_mod::lemma_mod_add_multiples_vanish;
use vstd::arithmetic::div_mod::lemma_add_mod_noop;
use vstd::arithmetic::div_mod::lemma_mul_mod_noop_right;
use crate::modular::{Q, in_field, madd, mmul, mneg};
use crate::group::{GroupElem, group_add, group_neg, scalar_mul};

/// Public system parameters: the generator of the group.
#[derive(Clone, Copy, PartialEq, Eq, Structural, Debug)]
pub struct Parameters {
    pub generator: GroupElem,
}

impl Parameters {
    pub open spec fn wf(self) -> bool {
        self.generator.wf()
    }
}

pub type PublicKey = GroupElem;

pub struct SecretKey(pub u64);

impl SecretKey {
    pub open spec fn wf(self) -> bool {
        self.0 < Q
    }
}

/// The encryption nonce: one scalar of the group's scalar field.
#[derive(Clone, Copy, PartialEq, Eq, Structural, Debug)]
pub struct Randomness(pub u64);

impl Randomness {
    pub open spec fn wf(self) -> bool {
        self.0 < Q
    }
}

pub type Plaintext = GroupElem;

pub type Ciphertext = (GroupElem, GroupElem);

/// What encryption returns: `c1 = r * gen` and `c2 = m + r * pk`.
pub open spec fn encrypt_spec(gen: int, pk: int, m: int, r: int) -> (int, int) {
    (mmul(r, gen), madd(m, mmul(r, pk)))
}

/// What decryption returns: `c2 - sk * c1`.
pub open spec fn decrypt_spec(sk: int, c1: int, c2: int) -> int {
    madd(c2, mneg(mmul(sk, c1)))
}

/// Fresh random scalar, reduced into the scalar field.
pub fn sample_scalar() -> (s: u64)
    ensures
        s < Q,
{
    random_u64() % Q
}

/// Relies on `rand::random`: a uniformly sampled `u64`.  Nothing is
/// promised of the value.
#[verifier::external_body]
fn random_u64() -> u64 {
    rand::random::<u64>()
}

impl Randomness {
    /// A freshly sampled encryption nonce.
    pub fn rand() -> (r: Randomness)
        ensures
            r.wf(),
    {
        Randomness(sample_scalar())
    }
}

pub struct ElGamal;

impl ElGamal {
    /// Fix a generator from a sampled scalar.
    pub fn setup(sample: u64) -> (pp: Parameters)
        ensures
            pp.generator.0 == sample % Q,
            pp.wf(),
    {
        Parameters { generator: GroupElem(sample % Q) }
    }

    /// Sample a secret key and derive `pk = sk * generator`.
    pub fn keygen(pp: &Parameters, sk_sample: u64) -> (kp: (PublicKey, SecretKey))
        requires
            pp.wf(),
        ensures
            kp.1.0 == sk_sample % Q,
            kp.0.0 == mmul(kp.1.0 as int, pp.generator.0 as int),
            kp.0.wf(),
            kp.1.wf(),
    {
        let secret_key: u64 = sk_sample % Q;
        let public_key = scalar_mul(secret_key, pp.generator);
        (public_key, SecretKey(secret_key))
    }

    /// `c1 = r * generator`, `c2 = m + r * pk`.
    pub fn encrypt(pp: &Parameters, pk: &PublicKey, message: &Plaintext, r: &Randomness) -> (ct:
        Ciphertext)
        requires
            pp.wf(),
            pk.wf(),
            message.wf(),
            r.wf(),
        ensures
            ct.0.0 == encrypt_spec(pp.generator.0 as int, pk.0 as int, message.0 as int, r.0 as int).0,
            ct.1.0 == encrypt_spec(pp.generator.0 as int, pk.0 as int, message.0 as int, r.0 as int).1,
            ct.0.wf(),
            ct.1.wf(),
    {
        let s = scalar_mul(r.0, *pk);
        let c1 = scalar_mul(r.0, pp.generator);
        let c2 = group_add(*message, s);
        (c1, c2)
    }

    /// Recover the plaintext: `m = c2 + (-(sk * c1))`.
    pub fn decrypt(pp: &Parameters, sk: &SecretKey, ciphertext: &Ciphertext) -> (m: Plaintext)
        requires
            pp.wf(),
            sk.wf(),
            ciphertext.0.wf(),
            ciphertext.1.wf(),
        ensures
            m.0 == decrypt_spec(sk.0 as int, ciphertext.0.0 as int, ciphertext.1.0 as int),
            m.wf(),
    {
        let c1 = ciphertext.0;
        let c2 = ciphertext.1;

        let s = scalar_mul(sk.0, c1);
        let s_inv = group_neg(s);

        let m = group_add(c2, s_inv);

        m
    }
}

/// Decryption inverts encryption: for every generator, key pair
/// `(sk, pk = sk * gen)`, plaintext and nonce, decrypting the
/// encryption of `m` yields `m` again.
pub proof fn lemma_round_trip(g: int, sk: int, m: int, r: int)
    requires
        in_field(g),
        in_field(sk),
        in_field(m),
        in_field(r),
    ensures
        ({
            let pk = mmul(sk, g);
            let ct = encrypt_spec(g, pk, m, r);
            decrypt_spec(sk, ct.0, ct.1) == m
        }),
{
    let qq = Q as int;
    let pk = mmul(sk, g);
    let c1 = mmul(r, g);
    let s_e = mmul(r, pk);
    let c2 = madd(m, s_e);
    let s_d = mmul(sk, c1);

    // Both shared secrets reduce to (sk * r * g) % Q.
    lemma_mul_mod_noop_right(r, sk * g, qq);
    lemma_mul_mod_noop_right(sk, r * g, qq);
    assert(r * (sk * g) == sk * (r * g)) by (nonlinear_arith);
    assert(s_e == s_d);

    lemma_mod_bound(r * (sk * g), qq);
    assert(0 <= s_e < qq);

    // (m + s) % Q plus (Q - s) % Q reduces to m.
    lemma_add_mod_noop(m + s_e, qq - s_e, qq);
    assert((c2 + mneg(s_e)) % qq == (m + s_e + (qq - s_e)) % qq);
    assert(m + s_e + (qq - s_e) == qq + m);
    lemma_mod_add_multiples_vanish(m, qq);
    lemma_small_mod(m as nat, Q as nat);
    assert(decrypt_spec(sk, c1, c2) == m);
}

} // verus!
