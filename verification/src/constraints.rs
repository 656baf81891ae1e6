//! In-circuit representations of the scheme's data types, and the
//! encryption gadget.
//!
//! Each native entity has a circuit-level mirror that knows how to
//! allocate itself into the constraint system under each allocation
//! class.  A variable carries its assigned value when the system is
//! being solved, and no value when the circuit is only being shaped.
//! The gadget recomputes the ciphertext from the allocated inputs with
//! bitwise double-and-add scalar multiplication.

use vstd::prelude::*;

verus! {

use vstd::arithmetic::power2::pow2;
use vstd::arithmetic::power2::lemma2_to64;
use vstd::arithmetic::power2::lemma_pow2_adds;
use vstd::arithmetic::div_mod::lemma_add_mod_noop;
use vstd::arithmetic::div_mod::lemma_small_mod;
use crate::modular::{Q, madd, mmul, add_mod};
use crate::serialize::{
    SCALAR_BYTES,
    byte_bits,
    bytes_to_bits,
    bits_value,
    scalar_bytes_le,
    scalar_to_bytes_le,
    lemma_bits_value_append,
    lemma_bits_value_one,
    lemma_bytes_to_bits_append,
    lemma_bytes_to_bits_one,
};
use crate::r1cs::{AllocationMode, SynthesisError, ConstraintSystem};
use crate::group::GroupElem;
use crate::elgamal::{Parameters, Randomness, Ciphertext};

/// An in-circuit boolean value.
#[derive(Clone, Copy, Debug)]
pub struct BoolVar {
    pub value: Option<bool>,
}

/// An in-circuit byte value.
#[derive(Clone, Copy, Debug)]
pub struct UInt8Var {
    pub value: Option<u8>,
}

/// An in-circuit group element.
#[derive(Clone, Copy, Debug)]
pub struct GroupVar {
    pub value: Option<u64>,
}

impl GroupVar {
    /// Any value carried is a reduced group element.
    pub open spec fn wf(self) -> bool {
        self.value matches Some(v) ==> v < Q
    }
}

/// Every boolean variable carries a value.
pub open spec fn bool_vars_assigned(s: Seq<BoolVar>) -> bool {
    forall|i: int| 0 <= i < s.len() ==> (#[trigger] s[i]).value is Some
}

/// The values carried by a sequence of boolean variables.
pub open spec fn bool_var_values(s: Seq<BoolVar>) -> Seq<bool> {
    s.map_values(|b: BoolVar| b.value->0)
}

/// Every byte variable carries a value.
pub open spec fn byte_vars_assigned(s: Seq<UInt8Var>) -> bool {
    forall|i: int| 0 <= i < s.len() ==> (#[trigger] s[i]).value is Some
}

/// The values carried by a sequence of byte variables.
pub open spec fn byte_var_values(s: Seq<UInt8Var>) -> Seq<u8> {
    s.map_values(|b: UInt8Var| b.value->0)
}

impl UInt8Var {
    /// The bits of this byte, least-significant first, as in-circuit
    /// booleans.
    pub fn to_bits_le(&self) -> (r: Vec<BoolVar>)
        ensures
            r@.len() == 8,
            self.value matches Some(b) ==> bool_vars_assigned(r@) && bool_var_values(r@)
                == byte_bits(b),
            self.value is None ==> forall|i: int|
                0 <= i < r@.len() ==> (#[trigger] r@[i]).value is None,
    {
        match self.value {
            None => {
                vec![
                    BoolVar { value: None },
                    BoolVar { value: None },
                    BoolVar { value: None },
                    BoolVar { value: None },
                    BoolVar { value: None },
                    BoolVar { value: None },
                    BoolVar { value: None },
                    BoolVar { value: None },
                ]
            },
            Some(b) => {
                let x: u64 = b as u64;
                let r: Vec<BoolVar> = vec![
                    BoolVar { value: Some((x >> 0u64) & 1 == 1) },
                    BoolVar { value: Some((x >> 1u64) & 1 == 1) },
                    BoolVar { value: Some((x >> 2u64) & 1 == 1) },
                    BoolVar { value: Some((x >> 3u64) & 1 == 1) },
                    BoolVar { value: Some((x >> 4u64) & 1 == 1) },
                    BoolVar { value: Some((x >> 5u64) & 1 == 1) },
                    BoolVar { value: Some((x >> 6u64) & 1 == 1) },
                    BoolVar { value: Some((x >> 7u64) & 1 == 1) },
                ];
                proof {
                    assert(bool_var_values(r@) =~= byte_bits(b));
                }
                r
            },
        }
    }
}

/// The value a freshly allocated variable carries: a constant always
/// keeps its value, a slot allocated in setup mode carries none, and
/// an absent value in proving mode is a missing assignment.
pub open spec fn alloc_result(setup: bool, value: Option<u64>, mode: AllocationMode) -> Result<
    Option<u64>,
    SynthesisError,
> {
    match mode {
        AllocationMode::Constant => Ok(value),
        _ => {
            if setup {
                Ok(None)
            } else {
                match value {
                    Some(v) => Ok(Some(v)),
                    None => Err(SynthesisError::AssignmentMissing),
                }
            }
        },
    }
}

/// How an allocation extends the public-input vector: only a
/// statement input allocated while solving appends its value.
pub open spec fn alloc_instance(
    instance0: Seq<u64>,
    setup: bool,
    value: Option<u64>,
    mode: AllocationMode,
) -> Seq<u64> {
    if mode is Input && !setup && value is Some {
        instance0.push(value->0)
    } else {
        instance0
    }
}

/// Allocate one group-element variable under the given class.
///
/// A constant is baked in and always carries its value.  In setup mode
/// a statement or witness slot is allocated without a value; when the
/// system is being solved, an absent value is a missing assignment.
pub fn alloc_group_var(cs: &mut ConstraintSystem, value: Option<GroupElem>, mode: AllocationMode)
    -> (r: Result<GroupVar, SynthesisError>)
    requires
        value matches Some(v) ==> v.wf(),
        mode is Constant ==> value is Some,
    ensures
        final(cs).setup_mode == old(cs).setup_mode,
        final(cs).constraints@ == old(cs).constraints@,
        r matches Ok(v) ==> v.wf(),
        ({
            let vu = match value {
                Some(g) => Some(g.0),
                None => None,
            };
            &&& final(cs).instance_assignment@ == alloc_instance(
                old(cs).instance_assignment@,
                old(cs).setup_mode,
                vu,
                mode,
            )
            &&& r == match alloc_result(old(cs).setup_mode, vu, mode) {
                Ok(ov) => Ok::<GroupVar, SynthesisError>(GroupVar { value: ov }),
                Err(e) => Err::<GroupVar, SynthesisError>(e),
            }
        }),
{
    match mode {
        AllocationMode::Constant => {
            match value {
                Some(v) => Ok(GroupVar { value: Some(v.0) }),
                None => Err(SynthesisError::AssignmentMissing),
            }
        },
        AllocationMode::Input => {
            if cs.setup_mode {
                Ok(GroupVar { value: None })
            } else {
                match value {
                    None => Err(SynthesisError::AssignmentMissing),
                    Some(v) => {
                        cs.instance_assignment.push(v.0);
                        Ok(GroupVar { value: Some(v.0) })
                    },
                }
            }
        },
        AllocationMode::Witness => {
            if cs.setup_mode {
                Ok(GroupVar { value: None })
            } else {
                match value {
                    None => Err(SynthesisError::AssignmentMissing),
                    Some(v) => Ok(GroupVar { value: Some(v.0) }),
                }
            }
        },
    }
}

/// In-circuit group addition: defined whenever both inputs carry
/// values.
pub fn group_var_add(a: &GroupVar, b: &GroupVar) -> (r: GroupVar)
    requires
        a.wf(),
        b.wf(),
    ensures
        r.wf(),
        a.value is Some && b.value is Some ==> (r.value matches Some(v) && v == madd(
            a.value->0 as int,
            b.value->0 as int,
        )),
        !(a.value is Some && b.value is Some) ==> r.value is None,
{
    match (a.value, b.value) {
        (Some(x), Some(y)) => GroupVar { value: Some(add_mod(x, y)) },
        _ => GroupVar { value: None },
    }
}

impl GroupVar {
    /// Assert equality of two in-circuit group elements as a
    /// constraint.
    pub fn enforce_equal(&self, cs: &mut ConstraintSystem, other: &GroupVar) -> (r: Result<
        (),
        SynthesisError,
    >)
        ensures
            r is Ok,
            final(cs).constraints@ == old(cs).constraints@.push((self.value, other.value)),
            final(cs).setup_mode == old(cs).setup_mode,
            final(cs).instance_assignment@ == old(cs).instance_assignment@,
    {
        cs.enforce_equal_values(self.value, other.value);
        Ok(())
    }

    /// Bitwise double-and-add scalar multiplication, consuming the
    /// bits least-significant first.  Defined whenever the base and
    /// every bit carry values.
    pub fn scalar_mul_le(&self, bits: &Vec<BoolVar>) -> (r: GroupVar)
        requires
            self.wf(),
        ensures
            r.wf(),
            self.value is Some && bool_vars_assigned(bits@) ==> (r.value matches Some(v) && v
                == mmul(bits_value(bool_var_values(bits@)) as int, self.value->0 as int)),
            !(self.value is Some && bool_vars_assigned(bits@)) ==> r.value is None,
    {
        let base_v: u64;
        match self.value {
            Some(v) => {
                base_v = v;
            },
            None => {
                return GroupVar { value: None };
            },
        }
        let mut i: usize = 0;
        while i < bits.len()
            invariant
                0 <= i <= bits@.len(),
                forall|j: int| 0 <= j < i ==> (#[trigger] bits@[j]).value is Some,
            decreases bits@.len() - i,
        {
            match bits[i].value {
                Some(_) => {},
                None => {
                    assert(!bool_vars_assigned(bits@));
                    return GroupVar { value: None };
                },
            }
            i = i + 1;
        }
        assert(bool_vars_assigned(bits@));
        let ghost vals = bool_var_values(bits@);
        let mut acc: u64 = 0;
        let mut pw: u64 = base_v;
        let mut k: usize = 0;
        proof {
            assert(vals.subrange(0, 0) =~= Seq::<bool>::empty());
            assert(bits_value(Seq::<bool>::empty()) == 0);
            assert(pow2(0) == 1) by {
                lemma2_to64();
            }
            lemma_small_mod(0, Q as nat);
            lemma_small_mod(base_v as nat, Q as nat);
            assert(mmul(0, base_v as int) == 0);
            assert((1 * (base_v as int)) % (Q as int) == base_v);
        }
        while k < bits.len()
            invariant
                bool_vars_assigned(bits@),
                vals == bool_var_values(bits@),
                vals.len() == bits@.len(),
                base_v < Q,
                acc < Q,
                pw < Q,
                0 <= k <= bits@.len(),
                acc == mmul(bits_value(vals.subrange(0, k as int)) as int, base_v as int),
                pw == (pow2(k as nat) * (base_v as int)) % (Q as int),
            decreases bits@.len() - k,
        {
            let b: bool = match bits[k].value {
                Some(x) => x,
                None => false,
            };
            proof {
                let qq = Q as int;
                let bv = base_v as int;
                let vk = bits_value(vals.subrange(0, k as int)) as int;
                let p = pow2(k as nat) as int;
                assert(b == vals[k as int]);
                assert(vals.subrange(0, k + 1) =~= vals.subrange(0, k as int) + seq![vals[k as int]]);
                lemma_bits_value_append(vals.subrange(0, k as int), seq![vals[k as int]]);
                lemma_bits_value_one(vals[k as int]);
                assert(bits_value(vals.subrange(0, k + 1)) == vk + (if b {
                    p
                } else {
                    0
                }));
                lemma_add_mod_noop(vk * bv, p * bv, qq);
                assert((vk + p) * bv == vk * bv + p * bv) by (nonlinear_arith);
                lemma_add_mod_noop(p * bv, p * bv, qq);
                assert(p * bv + p * bv == (2 * p) * bv) by (nonlinear_arith);
                lemma_pow2_adds(1, k as nat);
                assert(pow2(1) == 2) by {
                    lemma2_to64();
                }
                assert(pow2((k + 1) as nat) == 2 * pow2(k as nat));
            }
            if b {
                acc = add_mod(acc, pw);
            }
            pw = add_mod(pw, pw);
            k = k + 1;
        }
        proof {
            assert(vals.subrange(0, vals.len() as int) =~= vals);
        }
        GroupVar { value: Some(acc) }
    }
}

/// The circuit-level encryption nonce: its canonical bytes, one
/// in-circuit byte variable per byte.
#[derive(Clone, Debug)]
pub struct RandomnessVar(pub Vec<UInt8Var>);

/// The canonical bytes a nonce allocated as a constant serializes
/// to: zero-filled when no value is given.
pub open spec fn randomness_alloc_bytes(value: Option<Randomness>) -> Seq<u8> {
    scalar_bytes_le(
        match value {
            Some(r) => r.0,
            None => 0u64,
        },
    )
}

impl RandomnessVar {
    pub open spec fn wf(self) -> bool {
        self.0@.len() == SCALAR_BYTES
    }

    /// Allocate the nonce under the given class: serialize it to its
    /// canonical bytes and allocate one byte variable per byte.  A
    /// constant is zero-filled when no value is given; a statement or
    /// witness slot left unset while the system is being solved is a
    /// missing assignment, exactly as for the other entities.
    pub fn new_variable(cs: &mut ConstraintSystem, value: Option<Randomness>, mode: AllocationMode)
        -> (r: Result<RandomnessVar, SynthesisError>)
        requires
            value matches Some(x) ==> x.wf(),
        ensures
            final(cs).setup_mode == old(cs).setup_mode,
            final(cs).constraints@ == old(cs).constraints@,
            r matches Ok(v) ==> v.wf(),
            mode is Constant ==> (r matches Ok(v) && byte_vars_assigned(v.0@) && byte_var_values(
                v.0@,
            ) == randomness_alloc_bytes(value)),
            !(mode is Constant) && old(cs).setup_mode ==> (r matches Ok(v) && forall|i: int|
                0 <= i < v.0@.len() ==> (#[trigger] v.0@[i]).value is None),
            !(mode is Constant) && !old(cs).setup_mode && value is None ==> r == Err::<
                RandomnessVar,
                SynthesisError,
            >(SynthesisError::AssignmentMissing),
            !(mode is Constant) && !old(cs).setup_mode && value is Some ==> (r matches Ok(v)
                && byte_vars_assigned(v.0@) && byte_var_values(v.0@) == scalar_bytes_le(
                (value->0).0,
            )),
            mode is Input && !old(cs).setup_mode && value is Some ==> final(cs).instance_assignment@
                == old(cs).instance_assignment@ + scalar_bytes_le((value->0).0).map_values(
                |b: u8| b as u64,
            ),
            !(mode is Input && !old(cs).setup_mode && value is Some) ==> final(cs).instance_assignment@ == old(cs).instance_assignment@,
    {
        let assign_values: bool;
        let rv: u64;
        match mode {
            AllocationMode::Constant => {
                assign_values = true;
                rv = match value {
                    Some(x) => x.0,
                    None => 0,
                };
            },
            _ => {
                if cs.setup_mode {
                    assign_values = false;
                    rv = 0;
                } else {
                    match value {
                        Some(x) => {
                            assign_values = true;
                            rv = x.0;
                        },
                        None => {
                            return Err(SynthesisError::AssignmentMissing);
                        },
                    }
                }
            },
        }
        let bytes: Vec<u8> = scalar_to_bytes_le(rv);
        let push_instance: bool = match mode {
            AllocationMode::Input => !cs.setup_mode,
            _ => false,
        };
        let mut vars: Vec<UInt8Var> = Vec::new();
        let mut i: usize = 0;
        while i < bytes.len()
            invariant
                bytes@ == scalar_bytes_le(rv),
                0 <= i <= bytes@.len(),
                vars@.len() == i,
                assign_values ==> forall|j: int|
                    0 <= j < i ==> (#[trigger] vars@[j]).value == Some(bytes@[j]),
                !assign_values ==> forall|j: int| 0 <= j < i ==> (#[trigger] vars@[j]).value is None,
                cs.setup_mode == old(cs).setup_mode,
                cs.constraints@ == old(cs).constraints@,
                push_instance ==> cs.instance_assignment@ == old(cs).instance_assignment@
                    + bytes@.subrange(0, i as int).map_values(|b: u8| b as u64),
                !push_instance ==> cs.instance_assignment@ == old(cs).instance_assignment@,
            decreases bytes@.len() - i,
        {
            let b: u8 = bytes[i];
            if assign_values {
                vars.push(UInt8Var { value: Some(b) });
            } else {
                vars.push(UInt8Var { value: None });
            }
            if push_instance {
                cs.instance_assignment.push(b as u64);
                proof {
                    assert(bytes@.subrange(0, i + 1).map_values(|b: u8| b as u64) =~= bytes@
                        .subrange(0, i as int).map_values(|b: u8| b as u64).push(bytes@[i as int] as u64));
                }
            }
            i = i + 1;
        }
        proof {
            assert(bytes@.subrange(0, bytes@.len() as int) =~= bytes@);
            if assign_values {
                assert(byte_var_values(vars@) =~= bytes@);
            }
        }
        Ok(RandomnessVar(vars))
    }

    /// Allocate the nonce as a private witness.
    pub fn new_witness(cs: &mut ConstraintSystem, value: Option<Randomness>) -> (r: Result<
        RandomnessVar,
        SynthesisError,
    >)
        requires
            value matches Some(x) ==> x.wf(),
        ensures
            final(cs).setup_mode == old(cs).setup_mode,
            final(cs).constraints@ == old(cs).constraints@,
            final(cs).instance_assignment@ == old(cs).instance_assignment@,
            r matches Ok(v) ==> v.wf(),
            old(cs).setup_mode ==> r is Ok,
            !old(cs).setup_mode && value is None ==> r == Err::<RandomnessVar, SynthesisError>(
                SynthesisError::AssignmentMissing,
            ),
            !old(cs).setup_mode && value is Some ==> (r matches Ok(v) && byte_vars_assigned(v.0@)
                && byte_var_values(v.0@) == scalar_bytes_le((value->0).0)),
    {
        Self::new_variable(cs, value, AllocationMode::Witness)
    }
}

/// Circuit-level system parameters: the generator as an in-circuit
/// group element.
#[derive(Clone, Copy, Debug)]
pub struct ParametersVar {
    pub generator: GroupVar,
}

impl ParametersVar {
    pub fn new_variable(cs: &mut ConstraintSystem, value: Option<Parameters>, mode: AllocationMode)
        -> (r: Result<ParametersVar, SynthesisError>)
        requires
            value matches Some(p) ==> p.wf(),
            mode is Constant ==> value is Some,
        ensures
            final(cs).setup_mode == old(cs).setup_mode,
            final(cs).constraints@ == old(cs).constraints@,
            r matches Ok(v) ==> v.generator.wf(),
            ({
                let vu = match value {
                    Some(p) => Some(p.generator.0),
                    None => None,
                };
                &&& final(cs).instance_assignment@ == alloc_instance(
                    old(cs).instance_assignment@,
                    old(cs).setup_mode,
                    vu,
                    mode,
                )
                &&& r == match alloc_result(old(cs).setup_mode, vu, mode) {
                    Ok(ov) => Ok::<ParametersVar, SynthesisError>(
                        ParametersVar { generator: GroupVar { value: ov } },
                    ),
                    Err(e) => Err::<ParametersVar, SynthesisError>(e),
                }
            }),
    {
        let gv: Option<GroupElem> = match value {
            Some(p) => Some(p.generator),
            None => None,
        };
        match alloc_group_var(cs, gv, mode) {
            Ok(g) => Ok(ParametersVar { generator: g }),
            Err(e) => Err(e),
        }
    }

    /// Bake the parameters into the circuit as a constant.
    pub fn new_constant(cs: &mut ConstraintSystem, value: &Parameters) -> (r: Result<
        ParametersVar,
        SynthesisError,
    >)
        requires
            value.wf(),
        ensures
            final(cs).setup_mode == old(cs).setup_mode,
            final(cs).constraints@ == old(cs).constraints@,
            final(cs).instance_assignment@ == old(cs).instance_assignment@,
            r == Ok::<ParametersVar, SynthesisError>(
                ParametersVar { generator: GroupVar { value: Some(value.generator.0) } },
            ),
    {
        Self::new_variable(cs, Some(*value), AllocationMode::Constant)
    }
}

/// Circuit-level plaintext: one in-circuit group element.
#[derive(Clone, Copy, Debug)]
pub struct PlaintextVar {
    pub plaintext: GroupVar,
}

impl PlaintextVar {
    pub fn new_variable(cs: &mut ConstraintSystem, value: Option<GroupElem>, mode: AllocationMode)
        -> (r: Result<PlaintextVar, SynthesisError>)
        requires
            value matches Some(p) ==> p.wf(),
            mode is Constant ==> value is Some,
        ensures
            final(cs).setup_mode == old(cs).setup_mode,
            final(cs).constraints@ == old(cs).constraints@,
            r matches Ok(v) ==> v.plaintext.wf(),
            ({
                let vu = match value {
                    Some(p) => Some(p.0),
                    None => None,
                };
                &&& final(cs).instance_assignment@ == alloc_instance(
                    old(cs).instance_assignment@,
                    old(cs).setup_mode,
                    vu,
                    mode,
                )
                &&& r == match alloc_result(old(cs).setup_mode, vu, mode) {
                    Ok(ov) => Ok::<PlaintextVar, SynthesisError>(
                        PlaintextVar { plaintext: GroupVar { value: ov } },
                    ),
                    Err(e) => Err::<PlaintextVar, SynthesisError>(e),
                }
            }),
    {
        match alloc_group_var(cs, value, mode) {
            Ok(g) => Ok(PlaintextVar { plaintext: g }),
            Err(e) => Err(e),
        }
    }

    /// Allocate the plaintext as a private witness.
    pub fn new_witness(cs: &mut ConstraintSystem, value: Option<GroupElem>) -> (r: Result<
        PlaintextVar,
        SynthesisError,
    >)
        requires
            value matches Some(p) ==> p.wf(),
        ensures
            final(cs).setup_mode == old(cs).setup_mode,
            final(cs).constraints@ == old(cs).constraints@,
            final(cs).instance_assignment@ == old(cs).instance_assignment@,
            r matches Ok(v) ==> v.plaintext.wf(),
            r == match alloc_result(
                old(cs).setup_mode,
                match value {
                    Some(p) => Some(p.0),
                    None => None,
                },
                AllocationMode::Witness,
            ) {
                Ok(ov) => Ok::<PlaintextVar, SynthesisError>(
                    PlaintextVar { plaintext: GroupVar { value: ov } },
                ),
                Err(e) => Err::<PlaintextVar, SynthesisError>(e),
            },
    {
        Self::new_variable(cs, value, AllocationMode::Witness)
    }
}

/// Circuit-level public key: one in-circuit group element.
#[derive(Clone, Copy, Debug)]
pub struct PublicKeyVar {
    pub pk: GroupVar,
}

impl PublicKeyVar {
    pub fn new_variable(cs: &mut ConstraintSystem, value: Option<GroupElem>, mode: AllocationMode)
        -> (r: Result<PublicKeyVar, SynthesisError>)
        requires
            value matches Some(p) ==> p.wf(),
            mode is Constant ==> value is Some,
        ensures
            final(cs).setup_mode == old(cs).setup_mode,
            final(cs).constraints@ == old(cs).constraints@,
            r matches Ok(v) ==> v.pk.wf(),
            ({
                let vu = match value {
                    Some(p) => Some(p.0),
                    None => None,
                };
                &&& final(cs).instance_assignment@ == alloc_instance(
                    old(cs).instance_assignment@,
                    old(cs).setup_mode,
                    vu,
                    mode,
                )
                &&& r == match alloc_result(old(cs).setup_mode, vu, mode) {
                    Ok(ov) => Ok::<PublicKeyVar, SynthesisError>(
                        PublicKeyVar { pk: GroupVar { value: ov } },
                    ),
                    Err(e) => Err::<PublicKeyVar, SynthesisError>(e),
                }
            }),
    {
        match alloc_group_var(cs, value, mode) {
            Ok(g) => Ok(PublicKeyVar { pk: g }),
            Err(e) => Err(e),
        }
    }

    /// Allocate the public key as a statement input.
    pub fn new_input(cs: &mut ConstraintSystem, value: Option<GroupElem>) -> (r: Result<
        PublicKeyVar,
        SynthesisError,
    >)
        requires
            value matches Some(p) ==> p.wf(),
        ensures
            final(cs).setup_mode == old(cs).setup_mode,
            final(cs).constraints@ == old(cs).constraints@,
            final(cs).instance_assignment@ == alloc_instance(
                old(cs).instance_assignment@,
                old(cs).setup_mode,
                match value {
                    Some(p) => Some(p.0),
                    None => None,
                },
                AllocationMode::Input,
            ),
            r == match alloc_result(
                old(cs).setup_mode,
                match value {
                    Some(p) => Some(p.0),
                    None => None,
                },
                AllocationMode::Input,
            ) {
                Ok(ov) => Ok::<PublicKeyVar, SynthesisError>(
                    PublicKeyVar { pk: GroupVar { value: ov } },
                ),
                Err(e) => Err::<PublicKeyVar, SynthesisError>(e),
            },
            r matches Ok(v) ==> v.pk.wf(),
    {
        Self::new_variable(cs, value, AllocationMode::Input)
    }

    /// Allocate the public key as a private witness.
    pub fn new_witness(cs: &mut ConstraintSystem, value: Option<GroupElem>) -> (r: Result<
        PublicKeyVar,
        SynthesisError,
    >)
        requires
            value matches Some(p) ==> p.wf(),
        ensures
            final(cs).setup_mode == old(cs).setup_mode,
            final(cs).constraints@ == old(cs).constraints@,
            final(cs).instance_assignment@ == old(cs).instance_assignment@,
            r matches Ok(v) ==> v.pk.wf(),
            !old(cs).setup_mode && value is Some ==> (r matches Ok(v) && v.pk.value == Some(
                (value->0).0,
            )),
    {
        Self::new_variable(cs, value, AllocationMode::Witness)
    }
}

/// The in-circuit ciphertext: a pair of group-element variables.
#[derive(Clone, Copy, Debug)]
pub struct OutputVar {
    pub c1: GroupVar,
    pub c2: GroupVar,
}

impl OutputVar {
    pub fn new_variable(cs: &mut ConstraintSystem, value: Option<Ciphertext>, mode: AllocationMode)
        -> (r: Result<OutputVar, SynthesisError>)
        requires
            value matches Some(ct) ==> ct.0.wf() && ct.1.wf(),
            mode is Constant ==> value is Some,
        ensures
            final(cs).setup_mode == old(cs).setup_mode,
            final(cs).constraints@ == old(cs).constraints@,
            r matches Ok(v) ==> v.c1.wf() && v.c2.wf(),
            ({
                let v1 = match value {
                    Some(ct) => Some(ct.0.0),
                    None => None,
                };
                let v2 = match value {
                    Some(ct) => Some(ct.1.0),
                    None => None,
                };
                &&& final(cs).instance_assignment@ == alloc_instance(
                    alloc_instance(
                        old(cs).instance_assignment@,
                        old(cs).setup_mode,
                        v1,
                        mode,
                    ),
                    old(cs).setup_mode,
                    v2,
                    mode,
                )
                &&& r == match (
                    alloc_result(old(cs).setup_mode, v1, mode),
                    alloc_result(old(cs).setup_mode, v2, mode),
                ) {
                    (Ok(o1), Ok(o2)) => Ok::<OutputVar, SynthesisError>(
                        OutputVar { c1: GroupVar { value: o1 }, c2: GroupVar { value: o2 } },
                    ),
                    (Err(e), _) => Err::<OutputVar, SynthesisError>(e),
                    (_, Err(e)) => Err::<OutputVar, SynthesisError>(e),
                }
            }),
    {
        let v1: Option<GroupElem> = match value {
            Some(ct) => Some(ct.0),
            None => None,
        };
        let v2: Option<GroupElem> = match value {
            Some(ct) => Some(ct.1),
            None => None,
        };
        let c1 = match alloc_group_var(cs, v1, mode) {
            Ok(g) => g,
            Err(e) => {
                return Err(e);
            },
        };
        let c2 = match alloc_group_var(cs, v2, mode) {
            Ok(g) => g,
            Err(e) => {
                return Err(e);
            },
        };
        Ok(OutputVar { c1, c2 })
    }

    /// Allocate the ciphertext as a statement input, first point
    /// first.
    pub fn new_input(cs: &mut ConstraintSystem, value: Option<Ciphertext>) -> (r: Result<
        OutputVar,
        SynthesisError,
    >)
        requires
            value matches Some(ct) ==> ct.0.wf() && ct.1.wf(),
        ensures
            final(cs).setup_mode == old(cs).setup_mode,
            final(cs).constraints@ == old(cs).constraints@,
            r matches Ok(v) ==> v.c1.wf() && v.c2.wf(),
            old(cs).setup_mode ==> (r matches Ok(v) && v.c1.value is None && v.c2.value is None
                && final(cs).instance_assignment@ == old(cs).instance_assignment@),
            !old(cs).setup_mode && value is None ==> r == Err::<OutputVar, SynthesisError>(
                SynthesisError::AssignmentMissing,
            ) && final(cs).instance_assignment@ == old(cs).instance_assignment@,
            !old(cs).setup_mode && value is Some ==> (r matches Ok(v) && v.c1.value == Some(
                (value->0).0.0,
            ) && v.c2.value == Some((value->0).1.0) && final(cs).instance_assignment@ == old(
                cs,
            ).instance_assignment@.push((value->0).0.0).push((value->0).1.0)),
    {
        Self::new_variable(cs, value, AllocationMode::Input)
    }

    /// Equality of two in-circuit ciphertexts: both component points
    /// must be equal.
    pub fn is_eq(&self, other: &OutputVar) -> (r: Result<BoolVar, SynthesisError>)
        ensures
            self.c1.value is Some && self.c2.value is Some && other.c1.value is Some
                && other.c2.value is Some ==> (r matches Ok(b) && b.value == Some(
                self.c1.value->0 == other.c1.value->0 && self.c2.value->0 == other.c2.value->0,
            )),
            !(self.c1.value is Some && self.c2.value is Some && other.c1.value is Some
                && other.c2.value is Some) ==> (r matches Ok(b) && b.value is None),
    {
        match (self.c1.value, other.c1.value, self.c2.value, other.c2.value) {
            (Some(a1), Some(b1), Some(a2), Some(b2)) => Ok(
                BoolVar { value: Some(a1 == b1 && a2 == b2) },
            ),
            _ => Ok(BoolVar { value: None }),
        }
    }

    /// Assert equality of two in-circuit ciphertexts: one equality
    /// constraint per component point.
    pub fn enforce_equal(&self, cs: &mut ConstraintSystem, other: &OutputVar) -> (r: Result<
        (),
        SynthesisError,
    >)
        ensures
            r is Ok,
            final(cs).constraints@ == old(cs).constraints@.push(
                (self.c1.value, other.c1.value),
            ).push((self.c2.value, other.c2.value)),
            final(cs).setup_mode == old(cs).setup_mode,
            final(cs).instance_assignment@ == old(cs).instance_assignment@,
    {
        cs.enforce_equal_values(self.c1.value, other.c1.value);
        cs.enforce_equal_values(self.c2.value, other.c2.value);
        Ok(())
    }
}

/// The encryption gadget: recomputes, with in-circuit operations
/// only, the ciphertext the native scheme produces.
pub struct ElGamalEncGadget;

/// All gadget inputs carry values: the generator, the plaintext, the
/// public key, and every byte of the nonce.
pub open spec fn gadget_inputs_assigned(
    parameters: ParametersVar,
    message: PlaintextVar,
    randomness: RandomnessVar,
    public_key: PublicKeyVar,
) -> bool {
    &&& parameters.generator.value is Some
    &&& message.plaintext.value is Some
    &&& public_key.pk.value is Some
    &&& byte_vars_assigned(randomness.0@)
}

/// The scalar the gadget's bit sequence denotes.
pub open spec fn gadget_scalar(randomness: RandomnessVar) -> nat {
    bits_value(bytes_to_bits(byte_var_values(randomness.0@)))
}

impl ElGamalEncGadget {
    /// Flatten the nonce bytes into their ordered bit sequence —
    /// least-significant bit of the least-significant byte first —
    /// then compute `c1 = bits * generator` and
    /// `c2 = plaintext + bits * pk` by bitwise double-and-add.
    pub fn encrypt(
        parameters: &ParametersVar,
        message: &PlaintextVar,
        randomness: &RandomnessVar,
        public_key: &PublicKeyVar,
    ) -> (r: Result<OutputVar, SynthesisError>)
        requires
            parameters.generator.wf(),
            message.plaintext.wf(),
            public_key.pk.wf(),
        ensures
            r matches Ok(out) ==> out.c1.wf() && out.c2.wf(),
            gadget_inputs_assigned(*parameters, *message, *randomness, *public_key) ==> (r matches
                Ok(out) && (out.c1.value matches Some(c) && c == mmul(
                gadget_scalar(*randomness) as int,
                parameters.generator.value->0 as int,
            )) && (out.c2.value matches Some(c) && c == madd(
                message.plaintext.value->0 as int,
                mmul(gadget_scalar(*randomness) as int, public_key.pk.value->0 as int),
            ))),
            !gadget_inputs_assigned(*parameters, *message, *randomness, *public_key) ==> (r matches
                Ok(out) && (out.c1.value is None || out.c2.value is None)),
    {
        // flatten randomness to a little-endian bit sequence
        let mut bits: Vec<BoolVar> = Vec::new();
        let mut i: usize = 0;
        while i < randomness.0.len()
            invariant
                0 <= i <= randomness.0@.len(),
                byte_vars_assigned(randomness.0@.subrange(0, i as int)) ==> (bool_vars_assigned(
                    bits@,
                ) && bool_var_values(bits@) == bytes_to_bits(
                    byte_var_values(randomness.0@.subrange(0, i as int)),
                )),
                !byte_vars_assigned(randomness.0@.subrange(0, i as int)) ==> !bool_vars_assigned(
                    bits@,
                ),
            decreases randomness.0@.len() - i,
        {
            let ghost bits0 = bits@;
            let ghost prefix = randomness.0@.subrange(0, i as int);
            let mut bs: Vec<BoolVar> = randomness.0[i].to_bits_le();
            let ghost bsv = bs@;
            bits.append(&mut bs);
            proof {
                let prefix1 = randomness.0@.subrange(0, i + 1);
                assert(prefix1 =~= prefix.push(randomness.0@[i as int]));
                if byte_vars_assigned(prefix1) {
                    assert(forall|j: int|
                        0 <= j < prefix.len() ==> prefix[j] == (#[trigger] prefix1[j]));
                    assert(byte_vars_assigned(prefix));
                    assert(prefix1[i as int] == randomness.0@[i as int]);
                    assert(randomness.0@[i as int].value is Some);
                    let b = randomness.0@[i as int].value->0;
                    assert(bool_var_values(bits@) =~= bool_var_values(bits0) + bool_var_values(
                        bsv,
                    ));
                    assert(byte_var_values(prefix1) =~= byte_var_values(prefix) + seq![b]);
                    lemma_bytes_to_bits_append(byte_var_values(prefix), seq![b]);
                    lemma_bytes_to_bits_one(b);
                } else {
                    if byte_vars_assigned(prefix) {
                        // the new byte is unassigned, so its bits are too
                        assert(randomness.0@[i as int].value is None);
                        assert(bits@[bits0.len() as int].value is None);
                        assert(!bool_vars_assigned(bits@));
                    } else {
                        // an earlier bit is already unassigned
                        let jb = choose|jb: int|
                            0 <= jb < bits0.len() && !((#[trigger] bits0[jb]).value is Some);
                        assert(bits@[jb].value is None);
                        assert(!bool_vars_assigned(bits@));
                    }
                }
            }
            i = i + 1;
        }
        proof {
            assert(randomness.0@.subrange(0, randomness.0@.len() as int) =~= randomness.0@);
        }

        // compute s = randomness * pk
        let s = public_key.pk.scalar_mul_le(&bits);

        // compute c1 = randomness * generator
        let c1 = parameters.generator.scalar_mul_le(&bits);

        // compute c2 = m + s
        let c2 = group_var_add(&message.plaintext, &s);

        Ok(OutputVar { c1, c2 })
    }
}

} // verus!
