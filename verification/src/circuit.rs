//! The proof relation: "the stated ciphertext is the ElGamal
//! encryption of the witness plaintext, under the witness nonce and
//! the stated public key".
//!
//! The relation is a fixed straight-line computation: allocate the
//! generator as a constant, the public key and the ciphertext as
//! statement inputs, the plaintext and the nonce as witnesses, run
//! the encryption gadget, and assert that the recomputed ciphertext
//! equals the stated one.

use vstd::prelude::*;

verus! {

use vstd::arithmetic::div_mod::lemma_mod_bound;
use vstd::arithmetic::div_mod::lemma_small_mod;
use vstd::arithmetic::div_mod::lemma_add_mod_noop;
use vstd::arithmetic::div_mod::lemma_mod_add_multiples_vanish;
use crate::modular::{Q, madd, mmul};
use crate::group::GroupElem;
use crate::elgamal::{Parameters, Randomness, Ciphertext, encrypt_spec};
use crate::serialize::lemma_scalar_bits_value;
use crate::r1cs::{ConstraintSystem, SynthesisError, cs_satisfied, lemma_satisfied_after_two};
use crate::constraints::{
    ParametersVar,
    PublicKeyVar,
    PlaintextVar,
    RandomnessVar,
    OutputVar,
    ElGamalEncGadget,
    byte_var_values,
    gadget_scalar,
};

/// The verifiable-encryption relation, with every statement and
/// witness slot optional until a concrete assignment is supplied.
#[derive(Clone, Copy, Debug)]
pub struct ElgamalCircuit {
    /// Constant: the system parameters.
    pub g: Parameters,
    /// Statement: the public key.
    pub pk: Option<GroupElem>,
    /// Statement: the ciphertext.
    pub ct: Option<Ciphertext>,
    /// Witness: the plaintext.
    pub m: Option<GroupElem>,
    /// Witness: the encryption nonce.
    pub r: Option<Randomness>,
}

impl ElgamalCircuit {
    /// Every value present is a reduced group element or scalar.
    pub open spec fn wf(self) -> bool {
        &&& self.g.wf()
        &&& (self.pk matches Some(p) ==> p.wf())
        &&& (self.ct matches Some(ct) ==> ct.0.wf() && ct.1.wf())
        &&& (self.m matches Some(m) ==> m.wf())
        &&& (self.r matches Some(r) ==> r.wf())
    }

    /// The slots whose absence is a missing assignment when a
    /// concrete solution is requested.
    pub open spec fn slots_assigned(self) -> bool {
        self.pk is Some && self.ct is Some && self.m is Some && self.r is Some
    }

    /// The ciphertext the statement must equal for the relation to
    /// hold.
    pub open spec fn expected_ciphertext(self) -> (int, int) {
        encrypt_spec(
            self.g.generator.0 as int,
            (self.pk->0).0 as int,
            (self.m->0).0 as int,
            (self.r->0).0 as int,
        )
    }

    /// The public-input vector a run leaves behind, on every path: a
    /// function of the circuit and the starting system alone.  In
    /// setup mode nothing is appended; while solving, each statement
    /// input appends its value at the moment it is allocated, so a
    /// run that fails on a missing slot keeps what was allocated
    /// before it.
    pub open spec fn instance_after(self, cs0: ConstraintSystem) -> Seq<u64> {
        if cs0.setup_mode || self.pk is None {
            cs0.instance_assignment@
        } else if self.ct is None {
            cs0.instance_assignment@.push((self.pk->0).0)
        } else {
            cs0.instance_assignment@.push((self.pk->0).0).push(((self.ct->0).0).0).push(
                ((self.ct->0).1).0,
            )
        }
    }

    /// What a successful proving-mode run leaves behind: the
    /// public-input vector is extended by the statement values in
    /// fixed order — public key, then the two ciphertext points — and
    /// the system is satisfied exactly when it was before and the
    /// stated ciphertext is the encryption of the witnesses.
    pub open spec fn synthesized(self, cs0: ConstraintSystem, cs1: ConstraintSystem) -> bool {
        &&& cs1.setup_mode == cs0.setup_mode
        &&& cs1.instance_assignment@ == cs0.instance_assignment@.push((self.pk->0).0).push(
            ((self.ct->0).0).0,
        ).push(((self.ct->0).1).0)
        &&& (cs_satisfied(cs1) <==> (cs_satisfied(cs0) && ((self.ct->0).0).0
            == self.expected_ciphertext().0 && ((self.ct->0).1).0 == self.expected_ciphertext().1))
    }

    /// Generate the relation's constraints over `cs`.
    ///
    /// In setup mode this never fails and emits the relation's two
    /// equality constraints without values.  In proving mode any
    /// absent statement or witness slot is a missing assignment;
    /// otherwise the run succeeds and `synthesized` describes the
    /// result.  On every path the public-input vector ends up as
    /// `instance_after` says.
    pub fn generate_constraints(self, cs: &mut ConstraintSystem) -> (r: Result<
        (),
        SynthesisError,
    >)
        requires
            self.wf(),
        ensures
            final(cs).setup_mode == old(cs).setup_mode,
            final(cs).instance_assignment@ == self.instance_after(*old(cs)),
            old(cs).setup_mode ==> r is Ok && final(cs).constraints@.len() == old(
                cs,
            ).constraints@.len() + 2,
            !old(cs).setup_mode && !self.slots_assigned() ==> r == Err::<(), SynthesisError>(
                SynthesisError::AssignmentMissing,
            ) && final(cs).constraints@ == old(cs).constraints@,
            !old(cs).setup_mode && self.slots_assigned() ==> r is Ok && self.synthesized(
                *old(cs),
                *final(cs),
            ),
    {
        // constant
        let g = match ParametersVar::new_constant(cs, &self.g) {
            Ok(v) => v,
            Err(e) => {
                return Err(e);
            },
        };

        // statements
        let pk = match PublicKeyVar::new_input(cs, self.pk) {
            Ok(v) => v,
            Err(e) => {
                return Err(e);
            },
        };
        let ct = match OutputVar::new_input(cs, self.ct) {
            Ok(v) => v,
            Err(e) => {
                return Err(e);
            },
        };

        // witnesses
        let m = match PlaintextVar::new_witness(cs, self.m) {
            Ok(v) => v,
            Err(e) => {
                return Err(e);
            },
        };
        let r_var = match RandomnessVar::new_witness(cs, self.r) {
            Ok(v) => v,
            Err(e) => {
                return Err(e);
            },
        };

        let result_var = match ElGamalEncGadget::encrypt(&g, &m, &r_var, &pk) {
            Ok(v) => v,
            Err(e) => {
                return Err(e);
            },
        };

        let rr = result_var.enforce_equal(cs, &ct);
        match rr {
            Ok(_) => {},
            Err(e) => {
                return Err(e);
            },
        }

        proof {
            lemma_satisfied_after_two(
                *old(cs),
                *cs,
                (result_var.c1.value, ct.c1.value),
                (result_var.c2.value, ct.c2.value),
            );
            if !old(cs).setup_mode && self.slots_assigned() {
                let nonce = (self.r->0).0;
                assert(nonce < Q);
                assert(byte_var_values(r_var.0@) == crate::serialize::scalar_bytes_le(nonce));
                lemma_scalar_bits_value(nonce);
                assert(gadget_scalar(r_var) == nonce);
            }
        }
        Ok(())
    }
}

/// Determinism: two constraint-generation runs from the same circuit
/// and the same starting system — failing runs included — yield the
/// same result, the same public-input vector, and, while solving,
/// the same satisfiability.  The hypotheses are what
/// `generate_constraints` ensures of each run.
pub proof fn lemma_determinism(
    c: ElgamalCircuit,
    cs0: ConstraintSystem,
    a: ConstraintSystem,
    ra: Result<(), SynthesisError>,
    b: ConstraintSystem,
    rb: Result<(), SynthesisError>,
)
    requires
        a.instance_assignment@ == c.instance_after(cs0),
        b.instance_assignment@ == c.instance_after(cs0),
        cs0.setup_mode ==> ra is Ok && rb is Ok,
        !cs0.setup_mode && !c.slots_assigned() ==> ra == Err::<(), SynthesisError>(
            SynthesisError::AssignmentMissing,
        ) && rb == Err::<(), SynthesisError>(SynthesisError::AssignmentMissing)
            && a.constraints@ == cs0.constraints@ && b.constraints@ == cs0.constraints@,
        !cs0.setup_mode && c.slots_assigned() ==> ra is Ok && rb is Ok && c.synthesized(cs0, a)
            && c.synthesized(cs0, b),
    ensures
        ra == rb,
        a.instance_assignment@ == b.instance_assignment@,
        !cs0.setup_mode ==> (cs_satisfied(a) <==> cs_satisfied(b)),
{
    if cs0.setup_mode || c.slots_assigned() {
        assert(ra->Ok_0 == ());
        assert(rb->Ok_0 == ());
        assert(ra == Ok::<(), SynthesisError>(()));
        assert(rb == Ok::<(), SynthesisError>(()));
    }
}

/// Circuit-native agreement: after a proving-mode run from a
/// satisfied system, the system is satisfiable exactly when the
/// stated ciphertext is the native encryption of the witness
/// plaintext under the witness nonce and the stated key.
pub proof fn lemma_agreement(c: ElgamalCircuit, cs0: ConstraintSystem, cs1: ConstraintSystem)
    requires
        c.synthesized(cs0, cs1),
        cs_satisfied(cs0),
    ensures
        cs_satisfied(cs1) <==> (((c.ct->0).0).0 == c.expected_ciphertext().0 && ((c.ct->0).1).0
            == c.expected_ciphertext().1),
{
}

/// Completeness: when the stated ciphertext really is the encryption
/// of the witnesses, the run from a satisfied system leaves a
/// satisfiable system.
pub proof fn lemma_honest_statement_satisfiable(
    c: ElgamalCircuit,
    cs0: ConstraintSystem,
    cs1: ConstraintSystem,
)
    requires
        c.synthesized(cs0, cs1),
        cs_satisfied(cs0),
        ((c.ct->0).0).0 == c.expected_ciphertext().0,
        ((c.ct->0).1).0 == c.expected_ciphertext().1,
    ensures
        cs_satisfied(cs1),
{
}

/// A ciphertext that differs from the encryption of the witnesses in
/// either component leaves the system unsatisfiable.
pub proof fn lemma_wrong_ciphertext_unsatisfiable(
    c: ElgamalCircuit,
    cs0: ConstraintSystem,
    cs1: ConstraintSystem,
)
    requires
        c.synthesized(cs0, cs1),
        cs_satisfied(cs0),
        ((c.ct->0).0).0 != c.expected_ciphertext().0 || ((c.ct->0).1).0
            != c.expected_ciphertext().1,
    ensures
        !cs_satisfied(cs1),
{
}

/// Changing the nonce while keeping the statement fixed leaves the
/// system unsatisfiable, for any generator with an inverse.  (The
/// group's order is prime, so every nonzero generator has one; the
/// inverse is taken as a witness because that fact lives outside the
/// reach of the arithmetic lemmas here.)
pub proof fn lemma_wrong_nonce_unsatisfiable(
    c: ElgamalCircuit,
    r_honest: int,
    g_inv: int,
    cs0: ConstraintSystem,
    cs1: ConstraintSystem,
)
    requires
        c.wf(),
        c.slots_assigned(),
        c.synthesized(cs0, cs1),
        cs_satisfied(cs0),
        0 <= r_honest < Q,
        0 <= g_inv < Q,
        mmul(c.g.generator.0 as int, g_inv) == 1,
        // the statement ciphertext was produced with `r_honest`...
        ((c.ct->0).0).0 == mmul(r_honest, c.g.generator.0 as int),
        // ...but the witness nonce differs
        (c.r->0).0 != r_honest,
    ensures
        !cs_satisfied(cs1),
{
    if cs_satisfied(cs1) {
        // then the first component also matches the witness nonce
        assert(mmul((c.r->0).0 as int, c.g.generator.0 as int) == mmul(
            r_honest,
            c.g.generator.0 as int,
        ));
        crate::modular::lemma_mmul_cancel(
            (c.r->0).0 as int,
            r_honest,
            c.g.generator.0 as int,
            g_inv,
        );
        assert(false);
    }
}

/// Changing the stated public key while keeping the ciphertext fixed
/// leaves the system unsatisfiable, for any nonce with an inverse.
pub proof fn lemma_wrong_public_key_unsatisfiable(
    c: ElgamalCircuit,
    pk_honest: GroupElem,
    r_inv: int,
    cs0: ConstraintSystem,
    cs1: ConstraintSystem,
)
    requires
        c.wf(),
        c.slots_assigned(),
        c.synthesized(cs0, cs1),
        cs_satisfied(cs0),
        pk_honest.wf(),
        0 <= r_inv < Q,
        mmul((c.r->0).0 as int, r_inv) == 1,
        // the statement ciphertext encrypts under `pk_honest`...
        ((c.ct->0).1).0 == madd(
            (c.m->0).0 as int,
            mmul((c.r->0).0 as int, pk_honest.0 as int),
        ),
        // ...but the stated key differs
        (c.pk->0).0 != pk_honest.0,
    ensures
        !cs_satisfied(cs1),
{
    let nonce = (c.r->0).0 as int;
    let mw = (c.m->0).0 as int;
    let qq = Q as int;
    if cs_satisfied(cs1) {
        // then the second component also matches the stated key
        lemma_mod_bound(nonce * ((c.pk->0).0 as int), qq);
        lemma_mod_bound(nonce * (pk_honest.0 as int), qq);
        assert(madd(mw, mmul(nonce, (c.pk->0).0 as int)) == madd(
            mw,
            mmul(nonce, pk_honest.0 as int),
        ));
        crate::modular::lemma_madd_cancel(
            mw,
            mmul(nonce, (c.pk->0).0 as int),
            mmul(nonce, pk_honest.0 as int),
        );
        crate::modular::lemma_mmul_cancel(
            (c.pk->0).0 as int,
            pk_honest.0 as int,
            nonce,
            r_inv,
        );
        assert(false);
    }
}

/// Changing the plaintext while keeping the statement fixed leaves
/// the system unsatisfiable: the ciphertext determines the plaintext
/// once the nonce and key are fixed.
pub proof fn lemma_wrong_plaintext_unsatisfiable(
    c: ElgamalCircuit,
    m_honest: GroupElem,
    cs0: ConstraintSystem,
    cs1: ConstraintSystem,
)
    requires
        c.wf(),
        c.slots_assigned(),
        c.synthesized(cs0, cs1),
        cs_satisfied(cs0),
        m_honest.wf(),
        // the statement ciphertext encrypts `m_honest`...
        ((c.ct->0).0).0 == mmul((c.r->0).0 as int, c.g.generator.0 as int),
        ((c.ct->0).1).0 == madd(
            m_honest.0 as int,
            mmul((c.r->0).0 as int, (c.pk->0).0 as int),
        ),
        // ...but the witness plaintext differs
        (c.m->0).0 != m_honest.0,
    ensures
        !cs_satisfied(cs1),
{
    let qq = Q as int;
    let s = mmul((c.r->0).0 as int, (c.pk->0).0 as int);
    lemma_mod_bound(((c.r->0).0 as int) * ((c.pk->0).0 as int), qq);
    let mw = (c.m->0).0 as int;
    let mh = m_honest.0 as int;
    if cs_satisfied(cs1) {
        // then c2 also equals the encryption of the witness plaintext
        assert(madd(mw, s) == madd(mh, s));
        // cancel the shared secret on both sides
        lemma_add_mod_noop(mw + s, qq - s, qq);
        lemma_add_mod_noop(mh + s, qq - s, qq);
        lemma_mod_add_multiples_vanish(mw, qq);
        lemma_mod_add_multiples_vanish(mh, qq);
        lemma_small_mod((c.m->0).0 as nat, Q as nat);
        lemma_small_mod(m_honest.0 as nat, Q as nat);
        assert(((mw + s) % qq + (qq - s)) % qq == mw);
        assert(((mh + s) % qq + (qq - s)) % qq == mh);
        assert(false);
    }
}

} // verus!
