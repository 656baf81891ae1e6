use zk_elgamal::circuit::ElgamalCircuit;
use zk_elgamal::elgamal::{Ciphertext, ElGamal, Randomness, sample_scalar};
use zk_elgamal::group::GroupElem;
use zk_elgamal::r1cs::{ConstraintSystem, SynthesisError};

fn honest_circuit() -> ElgamalCircuit {
    // g = 3, sk = 7, pk = 21, m = 1000, r = 5
    let pp = ElGamal::setup(3);
    let (pk, _) = ElGamal::keygen(&pp, 7);
    let msg = GroupElem(1000);
    let randomness = Randomness(5);
    let ct: Ciphertext = ElGamal::encrypt(&pp, &pk, &msg, &randomness);
    ElgamalCircuit {
        g: pp,
        pk: Some(pk),
        ct: Some(ct),
        m: Some(msg),
        r: Some(randomness),
    }
}

#[test]
fn test_mul() {
    let parameters = ElGamal::setup(sample_scalar());
    let (pk, _) = ElGamal::keygen(&parameters, sample_scalar());
    let msg = GroupElem(sample_scalar());
    let randomness = Randomness::rand();
    let ct = ElGamal::encrypt(&parameters, &pk, &msg, &randomness);

    let test_circuit = ElgamalCircuit {
        g: parameters,
        pk: Some(pk),
        ct: Some(ct),
        m: Some(msg),
        r: Some(randomness),
    };
    let mut cs = ConstraintSystem::new_ref();

    test_circuit.generate_constraints(&mut cs).unwrap();
    assert!(cs.is_satisfied().unwrap());
}

#[test]
fn concrete_scenario_satisfiable() {
    // sk = 7, pk = 7g; m fixed; r = 5: c1 = 5g, c2 = m + 35g
    let circuit = honest_circuit();
    assert_eq!(circuit.ct.unwrap().0, GroupElem(15));
    assert_eq!(circuit.ct.unwrap().1, GroupElem(1105));

    let mut cs = ConstraintSystem::new_ref();
    circuit.generate_constraints(&mut cs).unwrap();
    assert!(cs.is_satisfied().unwrap());
}

#[test]
fn concrete_scenario_wrong_nonce_unsatisfiable() {
    // the same statement with witness r = 6 must not satisfy
    let mut circuit = honest_circuit();
    circuit.r = Some(Randomness(6));

    let mut cs = ConstraintSystem::new_ref();
    circuit.generate_constraints(&mut cs).unwrap();
    assert!(!cs.is_satisfied().unwrap());
}

#[test]
fn tampered_ciphertext_unsatisfiable() {
    // changing a single bit of either ciphertext point breaks the relation
    let circuit = honest_circuit();
    let ct = circuit.ct.unwrap();

    let mut t1 = circuit;
    t1.ct = Some((GroupElem(ct.0 .0 ^ 1), ct.1));
    let mut cs1 = ConstraintSystem::new_ref();
    t1.generate_constraints(&mut cs1).unwrap();
    assert!(!cs1.is_satisfied().unwrap());

    let mut t2 = circuit;
    t2.ct = Some((ct.0, GroupElem(ct.1 .0 ^ 1)));
    let mut cs2 = ConstraintSystem::new_ref();
    t2.generate_constraints(&mut cs2).unwrap();
    assert!(!cs2.is_satisfied().unwrap());
}

#[test]
fn tampered_public_key_unsatisfiable() {
    let mut circuit = honest_circuit();
    circuit.pk = Some(GroupElem(circuit.pk.unwrap().0 ^ 1));
    let mut cs = ConstraintSystem::new_ref();
    circuit.generate_constraints(&mut cs).unwrap();
    assert!(!cs.is_satisfied().unwrap());
}

#[test]
fn tampered_plaintext_unsatisfiable() {
    let mut circuit = honest_circuit();
    circuit.m = Some(GroupElem(circuit.m.unwrap().0 ^ 1));
    let mut cs = ConstraintSystem::new_ref();
    circuit.generate_constraints(&mut cs).unwrap();
    assert!(!cs.is_satisfied().unwrap());
}

#[test]
fn missing_plaintext_fails_when_solving() {
    let mut circuit = honest_circuit();
    circuit.m = None;
    let mut cs = ConstraintSystem::new_ref();
    let err = circuit.generate_constraints(&mut cs).unwrap_err();
    assert_eq!(err, SynthesisError::AssignmentMissing);
}

#[test]
fn missing_statement_fails_when_solving() {
    let mut c1 = honest_circuit();
    c1.pk = None;
    let mut cs1 = ConstraintSystem::new_ref();
    assert_eq!(
        c1.generate_constraints(&mut cs1).unwrap_err(),
        SynthesisError::AssignmentMissing
    );

    let mut c2 = honest_circuit();
    c2.ct = None;
    let mut cs2 = ConstraintSystem::new_ref();
    assert_eq!(
        c2.generate_constraints(&mut cs2).unwrap_err(),
        SynthesisError::AssignmentMissing
    );
    // the public key was already allocated when the run failed
    assert_eq!(cs2.instance_assignment, vec![21u64]);
}

#[test]
fn missing_nonce_fails_when_solving() {
    // the nonce is a witness like any other: absent while solving,
    // it is a missing assignment
    let mut circuit = honest_circuit();
    circuit.r = None;
    let mut cs = ConstraintSystem::new_ref();
    assert_eq!(
        circuit.generate_constraints(&mut cs).unwrap_err(),
        SynthesisError::AssignmentMissing
    );
}

#[test]
fn shape_inspection_never_fails() {
    // no assignment at all, but only the circuit's shape is wanted
    let circuit = ElgamalCircuit {
        g: ElGamal::setup(3),
        pk: None,
        ct: None,
        m: None,
        r: None,
    };
    let mut cs = ConstraintSystem::new_setup();
    circuit.generate_constraints(&mut cs).unwrap();
    assert_eq!(cs.num_constraints(), 2);
    // but satisfiability cannot be asked of a shape
    assert_eq!(cs.is_satisfied().unwrap_err(), SynthesisError::AssignmentMissing);
}

#[test]
fn public_inputs_in_fixed_order() {
    let circuit = honest_circuit();
    let mut cs = ConstraintSystem::new_ref();
    circuit.generate_constraints(&mut cs).unwrap();
    // public key first, then the two ciphertext points
    assert_eq!(cs.instance_assignment, vec![21u64, 15, 1105]);
}

#[test]
fn generation_is_deterministic() {
    let circuit = honest_circuit();

    let mut cs_a = ConstraintSystem::new_ref();
    circuit.generate_constraints(&mut cs_a).unwrap();
    let mut cs_b = ConstraintSystem::new_ref();
    circuit.generate_constraints(&mut cs_b).unwrap();

    assert_eq!(cs_a.instance_assignment, cs_b.instance_assignment);
    assert_eq!(cs_a.is_satisfied().unwrap(), cs_b.is_satisfied().unwrap());

    // failing runs are deterministic too, public-input vector included
    let mut failing = circuit;
    failing.ct = None;
    let mut cs_c = ConstraintSystem::new_ref();
    let rc = failing.generate_constraints(&mut cs_c);
    let mut cs_d = ConstraintSystem::new_ref();
    let rd = failing.generate_constraints(&mut cs_d);
    assert_eq!(rc, rd);
    assert_eq!(cs_c.instance_assignment, cs_d.instance_assignment);
}

#[test]
fn nonce_wraps_are_distinct_statements() {
    // two different nonces give two different first components as
    // long as the generator is invertible; spot-check one pair
    let pp = ElGamal::setup(1);
    let (pk, _) = ElGamal::keygen(&pp, 7);
    let msg = GroupElem(5);
    let ct5 = ElGamal::encrypt(&pp, &pk, &msg, &Randomness(5));
    let ct6 = ElGamal::encrypt(&pp, &pk, &msg, &Randomness(6));
    assert_ne!(ct5.0, ct6.0);
}
