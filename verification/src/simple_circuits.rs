//! Smaller didactic circuits over the same substrate: a product
//! check and two age-gated checks.  They exercise the same
//! allocation classes and equality assertions as the encryption
//! relation, on single field elements.

use vstd::prelude::*;

verus! {

use crate::modular::{Q, madd, mmul, mneg, add_mod, mul_mod, neg_mod, lemma_msub_zero};
use vstd::arithmetic::div_mod::lemma_small_mod;
use crate::r1cs::{
    AllocationMode,
    ConstraintSystem,
    SynthesisError,
    cs_satisfied,
    lemma_satisfied_after_one,
};
use crate::constraints::{alloc_result, alloc_instance, BoolVar};

/// An in-circuit field element.
#[derive(Clone, Copy, Debug)]
pub struct FpVar {
    pub value: Option<u64>,
}

impl FpVar {
    /// Any value carried is reduced.
    pub open spec fn wf(self) -> bool {
        self.value matches Some(v) ==> v < Q
    }

    /// Allocate one field-element variable under the given class.
    pub fn new_variable(cs: &mut ConstraintSystem, value: Option<u64>, mode: AllocationMode) -> (r:
        Result<FpVar, SynthesisError>)
        requires
            value matches Some(v) ==> v < Q,
            mode is Constant ==> value is Some,
        ensures
            final(cs).setup_mode == old(cs).setup_mode,
            final(cs).constraints@ == old(cs).constraints@,
            r matches Ok(v) ==> v.wf(),
            final(cs).instance_assignment@ == alloc_instance(
                old(cs).instance_assignment@,
                old(cs).setup_mode,
                value,
                mode,
            ),
            r == match alloc_result(old(cs).setup_mode, value, mode) {
                Ok(ov) => Ok::<FpVar, SynthesisError>(FpVar { value: ov }),
                Err(e) => Err::<FpVar, SynthesisError>(e),
            },
    {
        match mode {
            AllocationMode::Constant => {
                match value {
                    Some(v) => Ok(FpVar { value: Some(v) }),
                    None => Err(SynthesisError::AssignmentMissing),
                }
            },
            AllocationMode::Input => {
                if cs.setup_mode {
                    Ok(FpVar { value: None })
                } else {
                    match value {
                        None => Err(SynthesisError::AssignmentMissing),
                        Some(v) => {
                            cs.instance_assignment.push(v);
                            Ok(FpVar { value: Some(v) })
                        },
                    }
                }
            },
            AllocationMode::Witness => {
                if cs.setup_mode {
                    Ok(FpVar { value: None })
                } else {
                    match value {
                        None => Err(SynthesisError::AssignmentMissing),
                        Some(v) => Ok(FpVar { value: Some(v) }),
                    }
                }
            },
        }
    }

    /// Bake a field element into the circuit as a constant.
    pub fn new_constant(cs: &mut ConstraintSystem, value: u64) -> (r: Result<
        FpVar,
        SynthesisError,
    >)
        requires
            value < Q,
        ensures
            final(cs).setup_mode == old(cs).setup_mode,
            final(cs).constraints@ == old(cs).constraints@,
            final(cs).instance_assignment@ == old(cs).instance_assignment@,
            r == Ok::<FpVar, SynthesisError>(FpVar { value: Some(value) }),
    {
        Self::new_variable(cs, Some(value), AllocationMode::Constant)
    }

    /// Allocate a field element as a statement input.
    pub fn new_input(cs: &mut ConstraintSystem, value: Option<u64>) -> (r: Result<
        FpVar,
        SynthesisError,
    >)
        requires
            value matches Some(v) ==> v < Q,
        ensures
            final(cs).setup_mode == old(cs).setup_mode,
            final(cs).constraints@ == old(cs).constraints@,
            final(cs).instance_assignment@ == alloc_instance(
                old(cs).instance_assignment@,
                old(cs).setup_mode,
                value,
                AllocationMode::Input,
            ),
            r == match alloc_result(old(cs).setup_mode, value, AllocationMode::Input) {
                Ok(ov) => Ok::<FpVar, SynthesisError>(FpVar { value: ov }),
                Err(e) => Err::<FpVar, SynthesisError>(e),
            },
    {
        Self::new_variable(cs, value, AllocationMode::Input)
    }

    /// Allocate a field element as a private witness.
    pub fn new_witness(cs: &mut ConstraintSystem, value: Option<u64>) -> (r: Result<
        FpVar,
        SynthesisError,
    >)
        requires
            value matches Some(v) ==> v < Q,
        ensures
            final(cs).setup_mode == old(cs).setup_mode,
            final(cs).constraints@ == old(cs).constraints@,
            final(cs).instance_assignment@ == old(cs).instance_assignment@,
            r == match alloc_result(old(cs).setup_mode, value, AllocationMode::Witness) {
                Ok(ov) => Ok::<FpVar, SynthesisError>(FpVar { value: ov }),
                Err(e) => Err::<FpVar, SynthesisError>(e),
            },
    {
        Self::new_variable(cs, value, AllocationMode::Witness)
    }

    /// The in-circuit product, defined whenever both factors carry
    /// values.
    pub fn mul_var(&self, other: &FpVar) -> (r: FpVar)
        requires
            self.wf(),
            other.wf(),
        ensures
            r.wf(),
            self.value is Some && other.value is Some ==> (r.value matches Some(v) && v == mmul(
                self.value->0 as int,
                other.value->0 as int,
            )),
            !(self.value is Some && other.value is Some) ==> r.value is None,
    {
        match (self.value, other.value) {
            (Some(a), Some(b)) => FpVar { value: Some(mul_mod(a, b)) },
            _ => FpVar { value: None },
        }
    }

    /// Assert equality of two in-circuit field elements as a
    /// constraint.
    pub fn enforce_equal(&self, cs: &mut ConstraintSystem, other: &FpVar) -> (r: Result<
        (),
        SynthesisError,
    >)
        ensures
            r is Ok,
            final(cs).constraints@ == old(cs).constraints@.push((self.value, other.value)),
            final(cs).setup_mode == old(cs).setup_mode,
            final(cs).instance_assignment@ == old(cs).instance_assignment@,
    {
        cs.enforce_equal_values(self.value, other.value);
        Ok(())
    }

    /// Whether this element is strictly greater than the other.
    pub fn is_cmp_greater(&self, other: &FpVar) -> (r: BoolVar)
        ensures
            self.value is Some && other.value is Some ==> r.value == Some(
                self.value->0 > other.value->0,
            ),
            !(self.value is Some && other.value is Some) ==> r.value is None,
    {
        match (self.value, other.value) {
            (Some(a), Some(b)) => BoolVar { value: Some(a > b) },
            _ => BoolVar { value: None },
        }
    }

    /// Assert that this element is strictly greater than the other:
    /// the recorded constraint holds exactly when it is.
    pub fn enforce_cmp_greater(&self, cs: &mut ConstraintSystem, other: &FpVar) -> (r: Result<
        (),
        SynthesisError,
    >)
        ensures
            r is Ok,
            final(cs).setup_mode == old(cs).setup_mode,
            final(cs).instance_assignment@ == old(cs).instance_assignment@,
            self.value is Some && other.value is Some ==> final(cs).constraints@ == old(cs).constraints@.push(
                (
                    Some(
                        if self.value->0 > other.value->0 {
                            1u64
                        } else {
                            0u64
                        },
                    ),
                    Some(1u64),
                ),
            ),
            !(self.value is Some && other.value is Some) ==> final(cs).constraints@ == old(cs).constraints@.push((None, Some(1u64))),
    {
        let left: Option<u64> = match (self.value, other.value) {
            (Some(a), Some(b)) => Some(if a > b { 1 } else { 0 }),
            _ => None,
        };
        cs.enforce_equal_values(left, Some(1));
        Ok(())
    }

    /// Assert equality only under the given condition: the recorded
    /// constraint requires `(self - other) * condition` to be zero,
    /// so it holds exactly when the condition is false or the values
    /// are equal.
    pub fn conditional_enforce_equal(
        &self,
        cs: &mut ConstraintSystem,
        other: &FpVar,
        condition: &BoolVar,
    ) -> (r: Result<(), SynthesisError>)
        requires
            self.wf(),
            other.wf(),
        ensures
            r is Ok,
            final(cs).setup_mode == old(cs).setup_mode,
            final(cs).instance_assignment@ == old(cs).instance_assignment@,
            final(cs).constraints@.len() == old(cs).constraints@.len() + 1,
            self.value is Some && other.value is Some && condition.value is Some ==> final(cs).constraints@ == old(cs).constraints@.push(
                (
                    Some(
                        (mmul(
                            madd(self.value->0 as int, mneg(other.value->0 as int)),
                            if condition.value->0 {
                                1int
                            } else {
                                0int
                            },
                        )) as u64,
                    ),
                    Some(0u64),
                ),
            ),
            !(self.value is Some && other.value is Some && condition.value is Some) ==> final(cs).constraints@ == old(cs).constraints@.push((None, Some(0u64))),
    {
        let left: Option<u64> = match (self.value, other.value, condition.value) {
            (Some(a), Some(b), Some(c)) => {
                let diff = add_mod(a, neg_mod(b));
                let c01: u64 = if c {
                    1
                } else {
                    0
                };
                Some(mul_mod(diff, c01))
            },
            _ => None,
        };
        cs.enforce_equal_values(left, Some(0));
        Ok(())
    }
}

/// `c =? a * b`: the product is a statement, the factors are private
/// witnesses.
#[derive(Clone, Copy, Debug)]
pub struct MultiplyCircuitV2 {
    /// Statement.
    pub c: Option<u64>,
    /// Witnesses.
    pub a: Option<u64>,
    pub b: Option<u64>,
}

impl MultiplyCircuitV2 {
    pub open spec fn wf(self) -> bool {
        &&& (self.c matches Some(v) ==> v < Q)
        &&& (self.a matches Some(v) ==> v < Q)
        &&& (self.b matches Some(v) ==> v < Q)
    }

    pub open spec fn slots_assigned(self) -> bool {
        self.c is Some && self.a is Some && self.b is Some
    }

    /// Allocate `c` as statement, `a` and `b` as witnesses, and
    /// assert `c == a * b`.
    pub fn generate_constraints(self, cs: &mut ConstraintSystem) -> (r: Result<
        (),
        SynthesisError,
    >)
        requires
            self.wf(),
        ensures
            final(cs).setup_mode == old(cs).setup_mode,
            old(cs).setup_mode ==> r is Ok && final(cs).instance_assignment@ == old(cs).instance_assignment@ && final(cs).constraints@.len() == old(cs).constraints@.len()
                + 1,
            !old(cs).setup_mode && !self.slots_assigned() ==> r == Err::<(), SynthesisError>(
                SynthesisError::AssignmentMissing,
            ) && final(cs).constraints@ == old(cs).constraints@,
            !old(cs).setup_mode && self.slots_assigned() ==> r is Ok && final(cs).instance_assignment@ == old(cs).instance_assignment@.push(self.c->0) && (
            cs_satisfied(*final(cs)) <==> (cs_satisfied(*old(cs)) && self.c->0 == mmul(
                self.a->0 as int,
                self.b->0 as int,
            ))),
    {
        let c = match FpVar::new_input(cs, self.c) {
            Ok(v) => v,
            Err(e) => {
                return Err(e);
            },
        };

        let a = match FpVar::new_witness(cs, self.a) {
            Ok(v) => v,
            Err(e) => {
                return Err(e);
            },
        };
        let b = match FpVar::new_witness(cs, self.b) {
            Ok(v) => v,
            Err(e) => {
                return Err(e);
            },
        };

        let prod = a.mul_var(&b);
        let rr = c.enforce_equal(cs, &prod);
        match rr {
            Ok(_) => {},
            Err(e) => {
                return Err(e);
            },
        }

        proof {
            lemma_satisfied_after_one(*old(cs), *cs, (c.value, prod.value));
        }
        Ok(())
    }
}

/// Is the stated age greater than nineteen?
#[derive(Clone, Copy, Debug)]
pub struct IfV1 {
    /// Statement.
    pub age: Option<u64>,
}

/// The age threshold the two age-gated circuits compare against.
pub const AGE_BOUND: u64 = 19;

impl IfV1 {
    pub open spec fn wf(self) -> bool {
        self.age matches Some(v) ==> v < Q
    }

    /// Allocate the age as a statement and assert it exceeds the
    /// bound.
    pub fn generate_constraints(self, cs: &mut ConstraintSystem) -> (r: Result<
        (),
        SynthesisError,
    >)
        requires
            self.wf(),
        ensures
            final(cs).setup_mode == old(cs).setup_mode,
            old(cs).setup_mode ==> r is Ok && final(cs).instance_assignment@ == old(cs).instance_assignment@ && final(cs).constraints@.len() == old(cs).constraints@.len()
                + 1,
            !old(cs).setup_mode && self.age is None ==> r == Err::<(), SynthesisError>(
                SynthesisError::AssignmentMissing,
            ) && final(cs).constraints@ == old(cs).constraints@,
            !old(cs).setup_mode && self.age is Some ==> r is Ok && final(cs).instance_assignment@
                == old(cs).instance_assignment@.push(self.age->0) && (cs_satisfied(*final(cs))
                <==> (cs_satisfied(*old(cs)) && self.age->0 > AGE_BOUND)),
    {
        let age = match FpVar::new_input(cs, self.age) {
            Ok(v) => v,
            Err(e) => {
                return Err(e);
            },
        };

        let bound = match FpVar::new_constant(cs, AGE_BOUND) {
            Ok(v) => v,
            Err(e) => {
                return Err(e);
            },
        };

        let rr = age.enforce_cmp_greater(cs, &bound);
        match rr {
            Ok(_) => {},
            Err(e) => {
                return Err(e);
            },
        }

        proof {
            if !old(cs).setup_mode && self.age is Some {
                lemma_satisfied_after_one(
                    *old(cs),
                    *cs,
                    (
                        Some(
                            if self.age->0 > AGE_BOUND {
                                1u64
                            } else {
                                0u64
                            },
                        ),
                        Some(1u64),
                    ),
                );
            } else {
                lemma_satisfied_after_one(*old(cs), *cs, (None, Some(1u64)));
            }
        }
        Ok(())
    }
}

/// If the stated age exceeds the bound, require `c == a * b`;
/// otherwise require nothing of them.
#[derive(Clone, Copy, Debug)]
pub struct IfV2 {
    /// Statements.
    pub age: Option<u64>,
    pub c: Option<u64>,
    pub a: Option<u64>,
    pub b: Option<u64>,
}

impl IfV2 {
    pub open spec fn wf(self) -> bool {
        &&& (self.age matches Some(v) ==> v < Q)
        &&& (self.c matches Some(v) ==> v < Q)
        &&& (self.a matches Some(v) ==> v < Q)
        &&& (self.b matches Some(v) ==> v < Q)
    }

    pub open spec fn slots_assigned(self) -> bool {
        self.age is Some && self.c is Some && self.a is Some && self.b is Some
    }

    /// Allocate every value as a statement, in order `age, c, a, b`,
    /// and assert `c == a * b` under the condition `age > bound`.
    pub fn generate_constraints(self, cs: &mut ConstraintSystem) -> (r: Result<
        (),
        SynthesisError,
    >)
        requires
            self.wf(),
        ensures
            final(cs).setup_mode == old(cs).setup_mode,
            old(cs).setup_mode ==> r is Ok && final(cs).instance_assignment@ == old(cs).instance_assignment@ && final(cs).constraints@.len() == old(cs).constraints@.len()
                + 1,
            !old(cs).setup_mode && !self.slots_assigned() ==> r == Err::<(), SynthesisError>(
                SynthesisError::AssignmentMissing,
            ) && final(cs).constraints@ == old(cs).constraints@,
            !old(cs).setup_mode && self.slots_assigned() ==> r is Ok && final(cs).instance_assignment@ == old(cs).instance_assignment@.push(self.age->0).push(
                self.c->0,
            ).push(self.a->0).push(self.b->0) && (cs_satisfied(*final(cs)) <==> (cs_satisfied(
                *old(cs),
            ) && (self.age->0 <= AGE_BOUND || self.c->0 == mmul(
                self.a->0 as int,
                self.b->0 as int,
            )))),
    {
        let age = match FpVar::new_input(cs, self.age) {
            Ok(v) => v,
            Err(e) => {
                return Err(e);
            },
        };

        let bound = match FpVar::new_constant(cs, AGE_BOUND) {
            Ok(v) => v,
            Err(e) => {
                return Err(e);
            },
        };

        let is_age_greater = age.is_cmp_greater(&bound);

        let c = match FpVar::new_input(cs, self.c) {
            Ok(v) => v,
            Err(e) => {
                return Err(e);
            },
        };

        let a = match FpVar::new_input(cs, self.a) {
            Ok(v) => v,
            Err(e) => {
                return Err(e);
            },
        };
        let b = match FpVar::new_input(cs, self.b) {
            Ok(v) => v,
            Err(e) => {
                return Err(e);
            },
        };

        let prod = a.mul_var(&b);
        let rr = c.conditional_enforce_equal(cs, &prod, &is_age_greater);
        match rr {
            Ok(_) => {},
            Err(e) => {
                return Err(e);
            },
        }

        proof {
            if !old(cs).setup_mode && self.slots_assigned() {
                let cv = self.c->0 as int;
                let pv = mmul(self.a->0 as int, self.b->0 as int);
                let diff = madd(cv, mneg(pv));
                let cond = self.age->0 > AGE_BOUND;
                let left = mmul(
                    diff,
                    if cond {
                        1int
                    } else {
                        0int
                    },
                );
                lemma_satisfied_after_one(
                    *old(cs),
                    *cs,
                    (Some(left as u64), Some(0u64)),
                );
                assert(0 <= pv < Q);
                assert(0 <= diff < Q);
                if cond {
                    assert(diff * 1 == diff);
                    lemma_small_mod(diff as nat, Q as nat);
                    assert(left == diff);
                    lemma_msub_zero(cv, pv);
                    assert(left == 0 <==> cv == pv);
                } else {
                    assert(diff * 0 == 0);
                    lemma_small_mod(0, Q as nat);
                    assert(left == 0);
                }
            } else {
                lemma_satisfied_after_one(*old(cs), *cs, (None, Some(0u64)));
            }
        }
        Ok(())
    }
}

} // verus!
