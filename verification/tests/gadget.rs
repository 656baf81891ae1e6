use zk_elgamal::elgamal::{ElGamal, Randomness, sample_scalar};
use zk_elgamal::group::GroupElem;
use zk_elgamal::r1cs::{AllocationMode, ConstraintSystem};
use zk_elgamal::constraints::{
    BoolVar, UInt8Var, GroupVar, RandomnessVar, ParametersVar, PlaintextVar, PublicKeyVar,
    OutputVar, ElGamalEncGadget,
};

#[test]
fn test_elgamal_gadget() {
    // compute primitive result
    let parameters = ElGamal::setup(sample_scalar());
    let (pk, _) = ElGamal::keygen(&parameters, sample_scalar());
    let msg = GroupElem(sample_scalar());
    let randomness = Randomness::rand();
    let primitive_result = ElGamal::encrypt(&parameters, &pk, &msg, &randomness);

    // construct constraint system
    let mut cs = ConstraintSystem::new_ref();
    let randomness_var = RandomnessVar::new_witness(&mut cs, Some(randomness)).unwrap();
    let parameters_var = ParametersVar::new_constant(&mut cs, &parameters).unwrap();
    let msg_var = PlaintextVar::new_witness(&mut cs, Some(msg)).unwrap();
    let pk_var = PublicKeyVar::new_witness(&mut cs, Some(pk)).unwrap();

    // use gadget
    let result_var =
        ElGamalEncGadget::encrypt(&parameters_var, &msg_var, &randomness_var, &pk_var).unwrap();

    // check that result equals expected ciphertext in the constraint system
    let expected_var = OutputVar::new_input(&mut cs, Some(primitive_result)).unwrap();
    expected_var.enforce_equal(&mut cs, &result_var).unwrap();

    assert_eq!(primitive_result.0 .0, result_var.c1.value.unwrap());
    assert_eq!(primitive_result.1 .0, result_var.c2.value.unwrap());
    assert!(cs.is_satisfied().unwrap());
}

#[test]
fn gadget_matches_native_on_concrete_values() {
    // g = 3, pk = 21, m = 1000, r = 5: the gadget recomputes (15, 1105)
    let parameters = ElGamal::setup(3);
    let (pk, _) = ElGamal::keygen(&parameters, 7);
    let msg = GroupElem(1000);
    let randomness = Randomness(5);

    let mut cs = ConstraintSystem::new_ref();
    let randomness_var = RandomnessVar::new_witness(&mut cs, Some(randomness)).unwrap();
    let parameters_var = ParametersVar::new_constant(&mut cs, &parameters).unwrap();
    let msg_var = PlaintextVar::new_witness(&mut cs, Some(msg)).unwrap();
    let pk_var = PublicKeyVar::new_witness(&mut cs, Some(pk)).unwrap();

    let result_var =
        ElGamalEncGadget::encrypt(&parameters_var, &msg_var, &randomness_var, &pk_var).unwrap();
    assert_eq!(result_var.c1.value, Some(15));
    assert_eq!(result_var.c2.value, Some(1105));
}

#[test]
fn reversed_bit_order_breaks_agreement() {
    // flatten the canonical bytes of the nonce 2 into bits
    let byte_vars: Vec<UInt8Var> = vec![2u8, 0, 0, 0]
        .into_iter()
        .map(|b| UInt8Var { value: Some(b) })
        .collect();
    let mut bits: Vec<BoolVar> = Vec::new();
    for bv in &byte_vars {
        bits.extend(bv.to_bits_le());
    }

    let base = GroupVar { value: Some(1) };
    let forward = base.scalar_mul_le(&bits).value.unwrap();
    assert_eq!(forward, 2);

    // the same bits fed in the opposite order denote 2^30, not 2
    bits.reverse();
    let backward = base.scalar_mul_le(&bits).value.unwrap();
    assert_eq!(backward, 1 << 30);
    assert_ne!(backward, forward);
}

#[test]
fn gadget_without_values_stays_unassigned() {
    // shaping the circuit: witnesses carry no values, so neither does
    // the recomputed ciphertext
    let mut cs = ConstraintSystem::new_setup();
    let randomness_var = RandomnessVar::new_witness(&mut cs, None).unwrap();
    let parameters_var = ParametersVar::new_constant(&mut cs, &ElGamal::setup(3)).unwrap();
    let msg_var = PlaintextVar::new_witness(&mut cs, None).unwrap();
    let pk_var = PublicKeyVar::new_witness(&mut cs, None).unwrap();

    let result_var =
        ElGamalEncGadget::encrypt(&parameters_var, &msg_var, &randomness_var, &pk_var).unwrap();
    assert!(result_var.c1.value.is_none());
    assert!(result_var.c2.value.is_none());
}

#[test]
fn randomness_as_statement_input_exposes_its_bytes() {
    // allocated as a statement input, the nonce's canonical bytes
    // join the public-input vector in order
    let mut cs = ConstraintSystem::new_ref();
    let var = RandomnessVar::new_variable(
        &mut cs,
        Some(Randomness(0x01020304)),
        AllocationMode::Input,
    )
    .unwrap();
    assert_eq!(cs.instance_assignment, vec![4u64, 3, 2, 1]);
    let values: Vec<u8> = var.0.iter().map(|b| b.value.unwrap()).collect();
    assert_eq!(values, vec![4u8, 3, 2, 1]);
}

#[test]
fn output_var_equality_is_componentwise() {
    let a = OutputVar {
        c1: GroupVar { value: Some(4) },
        c2: GroupVar { value: Some(9) },
    };
    let b = OutputVar {
        c1: GroupVar { value: Some(4) },
        c2: GroupVar { value: Some(9) },
    };
    let c = OutputVar {
        c1: GroupVar { value: Some(4) },
        c2: GroupVar { value: Some(10) },
    };
    let d = OutputVar {
        c1: GroupVar { value: None },
        c2: GroupVar { value: Some(9) },
    };
    assert_eq!(a.is_eq(&b).unwrap().value, Some(true));
    // one equal component is not enough
    assert_eq!(a.is_eq(&c).unwrap().value, Some(false));
    assert_eq!(a.is_eq(&d).unwrap().value, None);
}
