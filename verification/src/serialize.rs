//! Canonical serialization of a scalar into bytes and bits.
//!
//! A scalar enters the circuit as its fixed-length little-endian byte
//! encoding, and each byte is then split into bits, least-significant
//! bit first, keeping byte order.  The lemmas here show that this
//! two-stage decomposition reconstructs exactly the scalar it started
//! from; the scalar-multiplication gadget consumes the flat bit
//! sequence in the same order.

use vstd::prelude::*;

verus! {

use vstd::arithmetic::power2::pow2;
use vstd::arithmetic::power2::lemma2_to64;
use vstd::arithmetic::power2::lemma_pow2_adds;
use vstd::arithmetic::power2::lemma_pow2_pos;
use vstd::arithmetic::div_mod::lemma_small_mod;
use vstd::arithmetic::div_mod::lemma_mod_bound;
use vstd::arithmetic::div_mod::lemma_mod_breakdown;
use vstd::arithmetic::mul::lemma_mul_is_associative;
use vstd::bits::lemma_u64_shr_is_div;
use vstd::bits::lemma_u64_low_bits_mask_is_mod;
use vstd::bits::lemma_low_bits_mask_values;
use crate::modular::Q;

/// Length of the canonical byte encoding of a scalar.
pub const SCALAR_BYTES: usize = 4;

/// Number of bits in the canonical encoding.
pub const SCALAR_BITS: usize = 32;

/// The `n` low bits of `x`, least-significant first.
pub open spec fn u64_bits_le(x: u64, n: nat) -> Seq<bool> {
    Seq::new(n, |i: int| (x >> (i as u64)) & 1 == 1)
}

/// The bits of one byte, least-significant first.
pub open spec fn byte_bits(b: u8) -> Seq<bool> {
    u64_bits_le(b as u64, 8)
}

/// Bytes to bits: byte order kept, least-significant bit of each byte
/// first.
pub open spec fn bytes_to_bits(s: Seq<u8>) -> Seq<bool>
    decreases s.len(),
{
    if s.len() == 0 {
        Seq::empty()
    } else {
        byte_bits(s[0]) + bytes_to_bits(s.subrange(1, s.len() as int))
    }
}

/// The natural number an LSB-first bit sequence denotes.
pub open spec fn bits_value(s: Seq<bool>) -> nat
    decreases s.len(),
{
    if s.len() == 0 {
        0
    } else {
        (if s[0] {
            1nat
        } else {
            0nat
        }) + 2 * bits_value(s.subrange(1, s.len() as int))
    }
}

/// The natural number an LSB-first byte sequence denotes.
pub open spec fn bytes_value(s: Seq<u8>) -> nat
    decreases s.len(),
{
    if s.len() == 0 {
        0
    } else {
        s[0] as nat + 256 * bytes_value(s.subrange(1, s.len() as int))
    }
}

/// The canonical little-endian byte encoding of a scalar.
pub open spec fn scalar_bytes_le(r: u64) -> Seq<u8> {
    seq![
        (r & 0xff) as u8,
        ((r >> 8) & 0xff) as u8,
        ((r >> 16) & 0xff) as u8,
        ((r >> 24) & 0xff) as u8,
    ]
}

/// Serialize a scalar to its canonical byte encoding.
pub fn scalar_to_bytes_le(r: u64) -> (b: Vec<u8>)
    requires
        r < Q,
    ensures
        b@ == scalar_bytes_le(r),
        b@.len() == SCALAR_BYTES,
{
    let b: Vec<u8> = vec![
        (r & 0xff) as u8,
        ((r >> 8) & 0xff) as u8,
        ((r >> 16) & 0xff) as u8,
        ((r >> 24) & 0xff) as u8,
    ];
    proof {
        assert(b@ =~= scalar_bytes_le(r));
    }
    b
}

/// The low `n` bits of `x` denote `x % 2^n`.
pub proof fn lemma_u64_bits_value(x: u64, n: nat)
    requires
        n <= 63,
    ensures
        bits_value(u64_bits_le(x, n)) == x as nat % pow2(n),
    decreases n,
{
    if n == 0 {
        assert(pow2(0) == 1) by {
            lemma2_to64();
        }
        assert(x as nat % 1 == 0);
    } else {
        let s = u64_bits_le(x, n);
        let y: u64 = x >> 1;
        assert(s.subrange(1, n as int) =~= u64_bits_le(y, (n - 1) as nat)) by {
            assert(forall|i: u64|
                i < 63 ==> ((x >> 1) >> i) & 1 == #[trigger] ((x >> (i + 1)) & 1)) by (bit_vector);
            assert forall|i: int| 0 <= i < n - 1 implies s.subrange(1, n as int)[i] == u64_bits_le(
                y,
                (n - 1) as nat,
            )[i] by {
                let j: u64 = i as u64;
                assert((x >> (j + 1)) & 1 == ((x >> 1) >> j) & 1);
            }
        }
        lemma_u64_bits_value(y, (n - 1) as nat);

        // Head bit is x % 2, shifted tail is x / 2.
        assert(x >> 0 == x) by (bit_vector);
        lemma_low_bits_mask_values();
        lemma_u64_low_bits_mask_is_mod(x, 1);
        assert(pow2(1) == 2) by {
            lemma2_to64();
        }
        assert(x & 1 == x % 2);
        lemma_u64_shr_is_div(x, 1);
        assert(y as nat == x as nat / 2);

        assert(s[0] == ((x >> 0) & 1 == 1));
        assert(bits_value(s) == (if x % 2 == 1 {
            1nat
        } else {
            0nat
        }) + 2 * (x as nat / 2 % pow2((n - 1) as nat)));
        assert(x % 2 == 0 || x % 2 == 1);

        lemma_pow2_pos((n - 1) as nat);
        lemma_mod_breakdown(x as int, 2, pow2((n - 1) as nat) as int);
        lemma_pow2_adds(1, (n - 1) as nat);
        assert(pow2(n) == 2 * pow2((n - 1) as nat));
        assert(bits_value(s) == x as nat % pow2(n));
    }
}

/// Concatenation: the tail's value is scaled by `2^(length of head)`.
pub proof fn lemma_bits_value_append(a: Seq<bool>, b: Seq<bool>)
    ensures
        bits_value(a + b) == bits_value(a) + pow2(a.len()) * bits_value(b),
    decreases a.len(),
{
    if a.len() == 0 {
        assert(a + b =~= b);
        assert(pow2(0) == 1) by {
            lemma2_to64();
        }
    } else {
        let t = a.subrange(1, a.len() as int);
        assert((a + b).subrange(1, (a + b).len() as int) =~= t + b);
        lemma_bits_value_append(t, b);
        assert(bits_value(a + b) == (if a[0] {
            1nat
        } else {
            0nat
        }) + 2 * (bits_value(t) + pow2(t.len()) * bits_value(b)));
        lemma_pow2_adds(1, t.len());
        assert(pow2(1) == 2) by {
            lemma2_to64();
        }
        assert(2 * (pow2(t.len()) * bits_value(b)) == pow2(a.len()) * bits_value(b)) by {
            lemma_mul_is_associative(2, pow2(t.len()) as int, bits_value(b) as int);
        }
    }
}

/// Splitting bytes into bits preserves the denoted value.
pub proof fn lemma_bytes_to_bits_value(s: Seq<u8>)
    ensures
        bits_value(bytes_to_bits(s)) == bytes_value(s),
        bytes_to_bits(s).len() == 8 * s.len(),
    decreases s.len(),
{
    if s.len() == 0 {
    } else {
        let t = s.subrange(1, s.len() as int);
        lemma_bytes_to_bits_value(t);
        lemma_bits_value_append(byte_bits(s[0]), bytes_to_bits(t));
        lemma_u64_bits_value(s[0] as u64, 8);
        assert(pow2(8) == 256) by {
            lemma2_to64();
        }
        lemma_small_mod(s[0] as nat, 256);
        assert(bits_value(byte_bits(s[0])) == s[0] as nat);
    }
}

/// Concatenating byte sequences concatenates their bit sequences.
pub proof fn lemma_bytes_to_bits_append(a: Seq<u8>, b: Seq<u8>)
    ensures
        bytes_to_bits(a + b) == bytes_to_bits(a) + bytes_to_bits(b),
    decreases a.len(),
{
    if a.len() == 0 {
        assert(a + b =~= b);
        assert(bytes_to_bits(a) + bytes_to_bits(b) =~= bytes_to_bits(b));
    } else {
        let t = a.subrange(1, a.len() as int);
        assert((a + b).subrange(1, (a + b).len() as int) =~= t + b);
        lemma_bytes_to_bits_append(t, b);
        assert(bytes_to_bits(a + b) == byte_bits(a[0]) + (bytes_to_bits(t) + bytes_to_bits(b)));
        assert(byte_bits(a[0]) + (bytes_to_bits(t) + bytes_to_bits(b)) =~= (byte_bits(a[0])
            + bytes_to_bits(t)) + bytes_to_bits(b));
    }
}

/// The value of a single bit.
pub proof fn lemma_bits_value_one(x: bool)
    ensures
        bits_value(seq![x]) == (if x {
            1nat
        } else {
            0nat
        }),
{
    assert(seq![x].subrange(1, 1) =~= Seq::<bool>::empty());
    reveal_with_fuel(bits_value, 2);
}

/// The bits of a single byte sequence are that byte's bits.
pub proof fn lemma_bytes_to_bits_one(b: u8)
    ensures
        bytes_to_bits(seq![b]) == byte_bits(b),
{
    let s = seq![b];
    assert(s.subrange(1, 1) =~= Seq::<u8>::empty());
    assert(bytes_to_bits(s.subrange(1, 1)) =~= Seq::<bool>::empty());
    assert(byte_bits(b) + Seq::<bool>::empty() =~= byte_bits(b));
}

/// The canonical encoding denotes the scalar it encodes.
pub proof fn lemma_scalar_bytes_le_value(r: u64)
    requires
        r < Q,
    ensures
        bytes_value(scalar_bytes_le(r)) == r,
{
    reveal_with_fuel(bytes_value, 5);
    let s = scalar_bytes_le(r);
    let t1 = s.subrange(1, 4);
    let t2 = t1.subrange(1, 3);
    let t3 = t2.subrange(1, 2);
    let t4 = t3.subrange(1, 1);
    assert(t4.len() == 0);
    assert(bytes_value(t4) == 0);
    assert(t3[0] == s[3]);
    assert(t2[0] == s[2]);
    assert(t1[0] == s[1]);
    assert(bytes_value(s) == s[0] as nat + 256 * (s[1] as nat + 256 * (s[2] as nat + 256 * (
    s[3] as nat))));
    assert(r == (r & 0xff) + 256 * ((r >> 8) & 0xff) + 65536 * ((r >> 16) & 0xff) + 16777216 * ((r
        >> 24) & 0xff)) by (bit_vector)
        requires
            r < 2147483647,
    ;
    assert((r & 0xff) < 256 && ((r >> 8) & 0xff) < 256 && ((r >> 16) & 0xff) < 256 && ((r >> 24)
        & 0xff) < 256) by (bit_vector);
}

/// The same bits read in the opposite order.
pub open spec fn reversed_bits(s: Seq<bool>) -> Seq<bool> {
    Seq::new(s.len(), |i: int| s[s.len() - 1 - i])
}

/// A sequence of unset bits denotes zero.
pub proof fn lemma_bits_value_all_false(s: Seq<bool>)
    requires
        forall|j: int| 0 <= j < s.len() ==> !(#[trigger] s[j]),
    ensures
        bits_value(s) == 0,
    decreases s.len(),
{
    if s.len() > 0 {
        lemma_bits_value_all_false(s.subrange(1, s.len() as int));
    }
}

/// A sequence with exactly one set bit, at position `t`, denotes
/// `2^t`.
pub proof fn lemma_bits_value_single(s: Seq<bool>, t: int)
    requires
        0 <= t < s.len(),
        forall|j: int| 0 <= j < s.len() ==> ((#[trigger] s[j]) <==> j == t),
    ensures
        bits_value(s) == pow2(t as nat),
    decreases s.len(),
{
    let tail = s.subrange(1, s.len() as int);
    if t == 0 {
        lemma_bits_value_all_false(tail);
        assert(pow2(0) == 1) by {
            lemma2_to64();
        }
    } else {
        lemma_bits_value_single(tail, t - 1);
        lemma_pow2_adds(1, (t - 1) as nat);
        assert(pow2(1) == 2) by {
            lemma2_to64();
        }
    }
}

/// Feeding the scalar-multiplication gadget the nonce bits in the
/// reversed order computes with a different scalar: already on the
/// nonce `2` the reversed sequence denotes `2^30`, so against the
/// generator `1` the gadget's first ciphertext component disagrees
/// with the native scheme's.
pub proof fn lemma_bit_order_sensitivity()
    ensures
        ({
            let bits = bytes_to_bits(scalar_bytes_le(2));
            let rev = reversed_bits(bits);
            &&& bits_value(bits) == 2
            &&& bits_value(rev) != bits_value(bits)
            &&& (bits_value(rev) as int) % (Q as int) != (bits_value(bits) as int) % (Q as int)
        }),
{
    let s = scalar_bytes_le(2);
    let bits = bytes_to_bits(s);
    let rev = reversed_bits(bits);
    lemma_scalar_bits_value(2);

    // the encoding of 2 is one set bit at position 1
    assert((2u64 & 0xff) == 2 && ((2u64 >> 8) & 0xff) == 0 && ((2u64 >> 16) & 0xff) == 0 && ((2u64
        >> 24) & 0xff) == 0) by (bit_vector);
    assert(s =~= seq![2u8, 0u8, 0u8, 0u8]);
    assert(forall|j: u64| j < 8 ==> (((2u64 >> j) & 1 == 1) <==> j == 1)) by (bit_vector);
    assert(forall|j: u64| j < 8 ==> ((0u64 >> j) & 1) == 0) by (bit_vector);
    let t1 = s.subrange(1, 4);
    let t2 = t1.subrange(1, 3);
    let t3 = t2.subrange(1, 2);
    let t4 = t3.subrange(1, 1);
    assert(t4.len() == 0);
    reveal_with_fuel(bytes_to_bits, 5);
    assert(bits =~= byte_bits(2) + (byte_bits(0) + (byte_bits(0) + (byte_bits(0)
        + Seq::<bool>::empty()))));
    assert forall|j: int| 0 <= j < 32 implies ((#[trigger] bits[j]) <==> j == 1) by {
        if j < 8 {
            assert(bits[j] == byte_bits(2)[j]);
            assert(byte_bits(2)[j] == ((2u64 >> (j as u64)) & 1 == 1));
        } else if j < 16 {
            assert(bits[j] == byte_bits(0)[j - 8]);
        } else if j < 24 {
            assert(bits[j] == byte_bits(0)[j - 16]);
        } else {
            assert(bits[j] == byte_bits(0)[j - 24]);
        }
    }

    // reversing moves the set bit to position 30
    assert(bits.len() == 32);
    assert forall|j: int| 0 <= j < 32 implies ((#[trigger] rev[j]) <==> j == 30) by {
        assert(rev[j] == bits[31 - j]);
    }
    lemma_bits_value_single(rev, 30);
    assert(pow2(30) == 0x40000000) by {
        lemma2_to64();
    }
    lemma_small_mod(2, Q as nat);
    lemma_small_mod(0x40000000, Q as nat);
}

/// The full bit decomposition of the canonical encoding denotes the
/// scalar itself.
pub proof fn lemma_scalar_bits_value(r: u64)
    requires
        r < Q,
    ensures
        bits_value(bytes_to_bits(scalar_bytes_le(r))) == r,
        bytes_to_bits(scalar_bytes_le(r)).len() == SCALAR_BITS,
{
    lemma_scalar_bytes_le_value(r);
    lemma_bytes_to_bits_value(scalar_bytes_le(r));
}

} // verus!
