use zk_elgamal::elgamal::{ElGamal, Randomness, sample_scalar};
use zk_elgamal::group::GroupElem;
use zk_elgamal::modular::Q;
use zk_elgamal::curve::CurveElGamal;

#[test]
fn test_elgamal_encryption() {
    let parameter = ElGamal::setup(sample_scalar());
    let (pk, sk) = ElGamal::keygen(&parameter, sample_scalar());

    let msg = GroupElem(sample_scalar());
    let r = Randomness::rand();

    let cipher = ElGamal::encrypt(&parameter, &pk, &msg, &r);
    let check_msg = ElGamal::decrypt(&parameter, &sk, &cipher);

    assert_eq!(msg, check_msg);
}

#[test]
fn round_trip_concrete_values() {
    // g = 3, sk = 7, m = 1000, r = 5
    let pp = ElGamal::setup(3);
    let (pk, sk) = ElGamal::keygen(&pp, 7);
    assert_eq!(pk, GroupElem(21));

    let msg = GroupElem(1000);
    let ct = ElGamal::encrypt(&pp, &pk, &msg, &Randomness(5));
    assert_eq!(ct.0, GroupElem(15));
    assert_eq!(ct.1, GroupElem(1105));

    let back = ElGamal::decrypt(&pp, &sk, &ct);
    assert_eq!(back, msg);
}

#[test]
fn round_trip_wraps_modulus() {
    // values near the modulus still decrypt correctly
    let pp = ElGamal::setup(Q - 1);
    let (pk, sk) = ElGamal::keygen(&pp, Q - 2);
    let msg = GroupElem(Q - 3);
    let r = Randomness(Q - 5);
    let ct = ElGamal::encrypt(&pp, &pk, &msg, &r);
    let back = ElGamal::decrypt(&pp, &sk, &ct);
    assert_eq!(back, msg);
}

#[test]
fn round_trip_zero_nonce() {
    let pp = ElGamal::setup(11);
    let (pk, sk) = ElGamal::keygen(&pp, 13);
    let msg = GroupElem(42);
    let ct = ElGamal::encrypt(&pp, &pk, &msg, &Randomness(0));
    // with r = 0 the first component is the identity and c2 = m
    assert_eq!(ct.0, GroupElem(0));
    assert_eq!(ct.1, msg);
    assert_eq!(ElGamal::decrypt(&pp, &sk, &ct), msg);
}

#[test]
fn sampled_scalars_are_reduced() {
    for _ in 0..32 {
        assert!(sample_scalar() < Q);
        assert!(Randomness::rand().0 < Q);
    }
}

#[test]
fn curve_round_trip() {
    // the same scheme over the Baby-JubJub curve
    let (msg, recovered, _ct) = CurveElGamal::round_trip(12345, 777, 424242, 999983);
    assert_eq!(msg, recovered);
}

#[test]
fn curve_round_trip_random_scalars() {
    let gen_sample: u64 = rand::random();
    let sk: u64 = rand::random();
    let m_sample: u64 = rand::random();
    let r: u64 = rand::random();
    let (msg, recovered, ct) = CurveElGamal::round_trip(gen_sample, sk, m_sample, r);
    assert_eq!(msg, recovered);
    // the ciphertext is not the plaintext in disguise
    assert_ne!(ct.1, msg);
}

#[test]
fn curve_operations_are_not_identity() {
    let gen = CurveElGamal::setup(1);
    let gen2 = CurveElGamal::setup(2);
    // multiplying the base point by different scalars gives different points
    assert_ne!(gen, gen2);
    // scalar multiplication moves the point
    let pk = CurveElGamal::keygen(&gen, 2);
    assert_ne!(pk, gen);
    assert_eq!(pk, gen2);
}

#[test]
fn curve_first_component_is_nonce_times_generator() {
    // sk = 7, r = 5, generator = the curve's base point: the first
    // ciphertext component must be 5 * B, reached here through an
    // independent path
    let gen = CurveElGamal::setup(1);
    let pk = CurveElGamal::keygen(&gen, 7);
    let msg = CurveElGamal::setup(9);
    let ct = CurveElGamal::encrypt(&gen, &pk, &msg, 5);
    assert_eq!(ct.0, CurveElGamal::setup(5));
    assert_eq!(CurveElGamal::decrypt(7, &ct.0, &ct.1), msg);
}

#[test]
fn curve_checked_entries() {
    let gen = CurveElGamal::setup(5);
    let pk = CurveElGamal::keygen(&gen, 7);
    let msg = CurveElGamal::setup(9);

    let ct = CurveElGamal::encrypt_checked(&gen, &pk, &msg, 11).unwrap();
    let back = CurveElGamal::decrypt_checked(7, &ct.0, &ct.1).unwrap();
    assert_eq!(back, msg);

    // bytes that are no point are rejected, not decrypted
    let garbage: Vec<u8> = vec![0xffu8; 3];
    assert!(CurveElGamal::encrypt_checked(&garbage, &pk, &msg, 11).is_none());
    assert!(CurveElGamal::decrypt_checked(7, &garbage, &ct.1).is_none());
}
