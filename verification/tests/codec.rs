use zk_elgamal::serialize::{scalar_to_bytes_le, SCALAR_BYTES};
use zk_elgamal::constraints::UInt8Var;
use zk_elgamal::group::{GroupElem, group_add, group_neg, scalar_mul};
use zk_elgamal::modular::Q;

#[test]
fn scalar_bytes_are_little_endian() {
    assert_eq!(scalar_to_bytes_le(0x01020304), vec![0x04u8, 0x03, 0x02, 0x01]);
    assert_eq!(scalar_to_bytes_le(2), vec![2u8, 0, 0, 0]);
    assert_eq!(scalar_to_bytes_le(0), vec![0u8; SCALAR_BYTES]);
    assert_eq!(
        scalar_to_bytes_le(Q - 1),
        vec![0xfeu8, 0xff, 0xff, 0x7f]
    );
}

#[test]
fn byte_bits_are_lsb_first() {
    let b = UInt8Var { value: Some(0b1010_0110) };
    let bits: Vec<bool> = b.to_bits_le().into_iter().map(|v| v.value.unwrap()).collect();
    assert_eq!(
        bits,
        vec![false, true, true, false, false, true, false, true]
    );
}

#[test]
fn group_operations_concrete() {
    // wrap-around addition and negation
    let a = GroupElem(Q - 1);
    let b = GroupElem(5);
    assert_eq!(group_add(a, b), GroupElem(4));
    assert_eq!(group_neg(b), GroupElem(Q - 5));
    assert_eq!(group_add(b, group_neg(b)), GroupElem(0));
    assert_eq!(scalar_mul(3, GroupElem(7)), GroupElem(21));
    assert_eq!(scalar_mul(2, a), GroupElem(Q - 2));
}
