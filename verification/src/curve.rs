//! The same scheme over a real elliptic curve.
//!
//! Here the group is the Baby-JubJub twisted Edwards curve, and the
//! arithmetic engine is the outside curve library.  A point travels
//! through this module as its canonical compressed byte encoding; the
//! engine's operations are named, trusted functions of those bytes,
//! and the scheme's functions are verified compositions of them.

use vstd::prelude::*;

use ark_ec::{AffineRepr, CurveGroup};
use ark_serialize::{CanonicalDeserialize, CanonicalSerialize};

verus! {

/// Whether the bytes are the canonical compressed encoding of a
/// curve point, as the engine's deserialization accepts it.
pub uninterp spec fn te_valid(p: Seq<u8>) -> bool;

/// The point `s * B`, for the curve's fixed base point `B`.
pub uninterp spec fn te_mul_base_of(s: u64) -> Seq<u8>;

/// The point `s * P`.
pub uninterp spec fn te_mul_of(p: Seq<u8>, s: u64) -> Seq<u8>;

/// The point `P + R`.
pub uninterp spec fn te_add_of(p: Seq<u8>, r: Seq<u8>) -> Seq<u8>;

/// The point `-P`.
pub uninterp spec fn te_neg_of(p: Seq<u8>) -> Seq<u8>;

/// Relies on `ark_serialize::CanonicalDeserialize::deserialize_compressed`
/// for `ark_ed_on_bn254::EdwardsAffine`: whether it accepts the bytes
/// is a function of the bytes alone.
#[verifier::external_body]
fn curve_check_point(p: &Vec<u8>) -> (ok: bool)
    ensures
        ok == te_valid(p@),
{
    ark_ed_on_bn254::EdwardsAffine::deserialize_compressed(&p[..]).is_ok()
}

/// Relies on `ark_ec::AffineRepr::generator` and scalar
/// multiplication of `ark_ed_on_bn254::EdwardsAffine`: a fixed,
/// deterministic function of the scalar.
#[verifier::external_body]
fn curve_mul_base(s: u64) -> (r: Vec<u8>)
    ensures
        r@ == te_mul_base_of(s),
        te_valid(r@),
{
    let p = ark_ed_on_bn254::EdwardsAffine::generator() * ark_ed_on_bn254::Fr::from(s);
    let mut buf: Vec<u8> = Vec::new();
    p.into_affine().serialize_compressed(&mut buf).unwrap();
    buf
}

/// Relies on scalar multiplication of
/// `ark_ed_on_bn254::EdwardsAffine` (`Mul<Fr>`), with the compressed
/// encoding converted at both ends: a deterministic function of the
/// point bytes and the scalar.
#[verifier::external_body]
fn curve_scalar_mul(p: &Vec<u8>, s: u64) -> (r: Vec<u8>)
    requires
        te_valid(p@),
    ensures
        r@ == te_mul_of(p@, s),
        te_valid(r@),
{
    let point = ark_ed_on_bn254::EdwardsAffine::deserialize_compressed(&p[..]).unwrap();
    let out = point * ark_ed_on_bn254::Fr::from(s);
    let mut buf: Vec<u8> = Vec::new();
    out.into_affine().serialize_compressed(&mut buf).unwrap();
    buf
}

/// Relies on point addition of `ark_ed_on_bn254`'s curve group
/// (`Projective + Affine`), with the compressed encoding converted at
/// both ends: a deterministic function of the two points' bytes.
#[verifier::external_body]
fn curve_add(p: &Vec<u8>, q: &Vec<u8>) -> (r: Vec<u8>)
    requires
        te_valid(p@),
        te_valid(q@),
    ensures
        r@ == te_add_of(p@, q@),
        te_valid(r@),
{
    let a = ark_ed_on_bn254::EdwardsAffine::deserialize_compressed(&p[..]).unwrap();
    let b = ark_ed_on_bn254::EdwardsAffine::deserialize_compressed(&q[..]).unwrap();
    let out = a.into_group() + b;
    let mut buf: Vec<u8> = Vec::new();
    out.into_affine().serialize_compressed(&mut buf).unwrap();
    buf
}

/// Relies on point negation of `ark_ed_on_bn254::EdwardsAffine`
/// (`Neg`), with the compressed encoding converted at both ends: a
/// deterministic function of the point bytes.
#[verifier::external_body]
fn curve_neg(p: &Vec<u8>) -> (r: Vec<u8>)
    requires
        te_valid(p@),
    ensures
        r@ == te_neg_of(p@),
        te_valid(r@),
{
    let a = ark_ed_on_bn254::EdwardsAffine::deserialize_compressed(&p[..]).unwrap();
    let mut buf: Vec<u8> = Vec::new();
    (-a).serialize_compressed(&mut buf).unwrap();
    buf
}

/// The scheme over the Baby-JubJub curve.  Points are canonical
/// compressed encodings; scalars are plain machine words.
pub struct CurveElGamal;

impl CurveElGamal {
    /// Fix a generator from a sampled scalar: `gen = sample * B`.
    pub fn setup(sample: u64) -> (gen: Vec<u8>)
        ensures
            gen@ == te_mul_base_of(sample),
            te_valid(gen@),
    {
        curve_mul_base(sample)
    }

    /// Derive `pk = sk * gen`.
    pub fn keygen(gen: &Vec<u8>, sk: u64) -> (pk: Vec<u8>)
        requires
            te_valid(gen@),
        ensures
            pk@ == te_mul_of(gen@, sk),
            te_valid(pk@),
    {
        curve_scalar_mul(gen, sk)
    }

    /// `c1 = r * gen`, `c2 = m + r * pk`.
    pub fn encrypt(gen: &Vec<u8>, pk: &Vec<u8>, message: &Vec<u8>, r: u64) -> (ct: (
        Vec<u8>,
        Vec<u8>,
    ))
        requires
            te_valid(gen@),
            te_valid(pk@),
            te_valid(message@),
        ensures
            ct.0@ == te_mul_of(gen@, r),
            ct.1@ == te_add_of(message@, te_mul_of(pk@, r)),
            te_valid(ct.0@),
            te_valid(ct.1@),
    {
        let s = curve_scalar_mul(pk, r);
        let c1 = curve_scalar_mul(gen, r);
        let c2 = curve_add(message, &s);
        (c1, c2)
    }

    /// Recover the plaintext: `m = c2 + (-(sk * c1))`.
    pub fn decrypt(sk: u64, c1: &Vec<u8>, c2: &Vec<u8>) -> (m: Vec<u8>)
        requires
            te_valid(c1@),
            te_valid(c2@),
        ensures
            m@ == te_add_of(c2@, te_neg_of(te_mul_of(c1@, sk))),
            te_valid(m@),
    {
        let s = curve_scalar_mul(c1, sk);
        let s_inv = curve_neg(&s);
        curve_add(c2, &s_inv)
    }

    /// Encrypt after checking that the handed-in points really are
    /// points: `None` exactly when one of them is not.
    pub fn encrypt_checked(gen: &Vec<u8>, pk: &Vec<u8>, message: &Vec<u8>, r: u64) -> (ct: Option<
        (Vec<u8>, Vec<u8>),
    >)
        ensures
            ct is Some <==> te_valid(gen@) && te_valid(pk@) && te_valid(message@),
            ct matches Some(c) ==> c.0@ == te_mul_of(gen@, r) && c.1@ == te_add_of(
                message@,
                te_mul_of(pk@, r),
            ),
    {
        if curve_check_point(gen) && curve_check_point(pk) && curve_check_point(message) {
            Some(Self::encrypt(gen, pk, message, r))
        } else {
            None
        }
    }

    /// Decrypt after checking that the ciphertext points really are
    /// points: `None` exactly when one of them is not.
    pub fn decrypt_checked(sk: u64, c1: &Vec<u8>, c2: &Vec<u8>) -> (m: Option<Vec<u8>>)
        ensures
            m is Some <==> te_valid(c1@) && te_valid(c2@),
            m matches Some(p) ==> p@ == te_add_of(c2@, te_neg_of(te_mul_of(c1@, sk))),
    {
        if curve_check_point(c1) && curve_check_point(c2) {
            Some(Self::decrypt(sk, c1, c2))
        } else {
            None
        }
    }

    /// Run the whole scheme over the curve from sampled scalars:
    /// derive a generator and key pair, encrypt a message point, and
    /// decrypt again.  Returns the message point, the decryption
    /// result, and the ciphertext.
    pub fn round_trip(gen_sample: u64, sk: u64, m_sample: u64, r: u64) -> (out: (
        Vec<u8>,
        Vec<u8>,
        (Vec<u8>, Vec<u8>),
    ))
        ensures
            ({
                let gen = te_mul_base_of(gen_sample);
                let pk = te_mul_of(gen, sk);
                let m = te_mul_base_of(m_sample);
                &&& out.0@ == m
                &&& out.2.0@ == te_mul_of(gen, r)
                &&& out.2.1@ == te_add_of(m, te_mul_of(pk, r))
                &&& out.1@ == te_add_of(
                    (out.2.1)@,
                    te_neg_of(te_mul_of((out.2.0)@, sk)),
                )
            }),
    {
        let gen = Self::setup(gen_sample);
        let pk = Self::keygen(&gen, sk);
        let m = curve_mul_base(m_sample);
        let ct = Self::encrypt(&gen, &pk, &m, r);
        let recovered = Self::decrypt(sk, &ct.0, &ct.1);
        (m, recovered, ct)
    }
}

} // verus!
