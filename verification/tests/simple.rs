use zk_elgamal::r1cs::{ConstraintSystem, SynthesisError};
use zk_elgamal::simple_circuits::{IfV1, IfV2, MultiplyCircuitV2};

#[test]
fn multiply_v2_test_mul() {
    let a: u64 = 3;
    let b: u64 = 2;

    let c: u64 = 6;

    let test_circuit = MultiplyCircuitV2 {
        a: Some(a),
        b: Some(b),
        c: Some(c),
    };
    let mut cs = ConstraintSystem::new_ref();

    test_circuit.generate_constraints(&mut cs).unwrap();
    assert!(cs.is_satisfied().unwrap());
}

#[test]
fn multiply_wrong_product_unsatisfiable() {
    let test_circuit = MultiplyCircuitV2 {
        a: Some(3),
        b: Some(3),
        c: Some(6),
    };
    let mut cs = ConstraintSystem::new_ref();
    test_circuit.generate_constraints(&mut cs).unwrap();
    assert!(!cs.is_satisfied().unwrap());
}

#[test]
fn multiply_missing_witness_fails() {
    let test_circuit = MultiplyCircuitV2 {
        a: None,
        b: Some(3),
        c: Some(6),
    };
    let mut cs = ConstraintSystem::new_ref();
    assert_eq!(
        test_circuit.generate_constraints(&mut cs).unwrap_err(),
        SynthesisError::AssignmentMissing
    );

    // shape inspection still works with nothing assigned
    let empty = MultiplyCircuitV2 {
        a: None,
        b: None,
        c: None,
    };
    let mut shape = ConstraintSystem::new_setup();
    empty.generate_constraints(&mut shape).unwrap();
    assert_eq!(shape.num_constraints(), 1);
}

#[test]
fn if_1_test_mul() {
    let age: u64 = 20;

    let test_circuit = IfV1 { age: Some(age) };
    let mut cs = ConstraintSystem::new_ref();

    test_circuit.generate_constraints(&mut cs).unwrap();
    assert!(cs.is_satisfied().unwrap());
}

#[test]
fn if_1_age_at_bound_unsatisfiable() {
    // nineteen is not greater than nineteen
    let test_circuit = IfV1 { age: Some(19) };
    let mut cs = ConstraintSystem::new_ref();
    test_circuit.generate_constraints(&mut cs).unwrap();
    assert!(!cs.is_satisfied().unwrap());
}

#[test]
fn if_2_test_mul() {
    let age: u64 = 19;
    let a: u64 = 3;
    let b: u64 = 3;

    let c: u64 = 6;

    let test_circuit = IfV2 {
        age: Some(age),
        a: Some(a),
        b: Some(b),
        c: Some(c),
    };
    let mut cs = ConstraintSystem::new_ref();

    test_circuit.generate_constraints(&mut cs).unwrap();
    assert!(cs.is_satisfied().unwrap());
}

#[test]
fn if_2_checks_product_above_bound() {
    // above the bound the product check bites...
    let wrong = IfV2 {
        age: Some(20),
        a: Some(3),
        b: Some(3),
        c: Some(6),
    };
    let mut cs1 = ConstraintSystem::new_ref();
    wrong.generate_constraints(&mut cs1).unwrap();
    assert!(!cs1.is_satisfied().unwrap());

    // ...and a correct product passes
    let right = IfV2 {
        age: Some(20),
        a: Some(3),
        b: Some(3),
        c: Some(9),
    };
    let mut cs2 = ConstraintSystem::new_ref();
    right.generate_constraints(&mut cs2).unwrap();
    assert!(cs2.is_satisfied().unwrap());
}
