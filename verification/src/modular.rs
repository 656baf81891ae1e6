//! Arithmetic modulo the fixed group order `Q`.
//!
//! Every scalar and every group element of the model group lives in
//! `[0, Q)`; the functions here are the only place where reduction
//! modulo `Q` happens.

use vstd::prelude::*;

verus! {

use vstd::arithmetic::div_mod::lemma_small_mod;
use vstd::arithmetic::div_mod::lemma_mod_bound;
use vstd::arithmetic::div_mod::lemma_mod_sub_multiples_vanish;
use vstd::arithmetic::div_mod::lemma_mod_self_0;
use vstd::arithmetic::div_mod::lemma_mul_mod_noop_left;
use vstd::arithmetic::div_mod::lemma_mul_mod_noop_right;
use vstd::arithmetic::div_mod::lemma_add_mod_noop;
use vstd::arithmetic::div_mod::lemma_mod_add_multiples_vanish;

/// Order of the model group and of its scalar field.
pub const Q: u64 = 2147483647;

/// A value that has been reduced modulo `Q`.
pub open spec fn in_field(a: int) -> bool {
    0 <= a < Q
}

/// Addition modulo `Q`.
pub open spec fn madd(a: int, b: int) -> int {
    (a + b) % (Q as int)
}

/// Multiplication modulo `Q`.
pub open spec fn mmul(a: int, b: int) -> int {
    (a * b) % (Q as int)
}

/// Negation modulo `Q`.
pub open spec fn mneg(a: int) -> int {
    ((Q as int) - a) % (Q as int)
}

pub fn add_mod(a: u64, b: u64) -> (r: u64)
    requires
        a < Q,
        b < Q,
    ensures
        r == madd(a as int, b as int),
        r < Q,
{
    let s: u64 = a + b;
    if s >= Q {
        proof {
            lemma_mod_sub_multiples_vanish(s as int, Q as int);
            lemma_small_mod((s - Q) as nat, Q as nat);
        }
        s - Q
    } else {
        proof {
            lemma_small_mod(s as nat, Q as nat);
        }
        s
    }
}

pub fn mul_mod(a: u64, b: u64) -> (r: u64)
    requires
        a < Q,
        b < Q,
    ensures
        r == mmul(a as int, b as int),
        r < Q,
{
    proof {
        assert((a as int) * (b as int) < (Q as int) * (Q as int)) by (nonlinear_arith)
            requires
                a < Q,
                b < Q,
        ;
        lemma_mod_bound((a * b) as int, Q as int);
    }
    (a * b) % Q
}

pub fn neg_mod(a: u64) -> (r: u64)
    requires
        a < Q,
    ensures
        r == mneg(a as int),
        r < Q,
{
    if a == 0 {
        proof {
            lemma_mod_self_0(Q as int);
        }
        0
    } else {
        proof {
            lemma_small_mod((Q - a) as nat, Q as nat);
        }
        Q - a
    }
}

/// A shared summand cancels: from `m + x == m + y` (modulo `Q`)
/// follows `x == y`.
pub proof fn lemma_madd_cancel(m: int, x: int, y: int)
    requires
        in_field(m),
        in_field(x),
        in_field(y),
        madd(m, x) == madd(m, y),
    ensures
        x == y,
{
    let qq = Q as int;
    if m == 0 {
        lemma_small_mod(x as nat, Q as nat);
        lemma_small_mod(y as nat, Q as nat);
    } else {
        lemma_small_mod((qq - m) as nat, Q as nat);
        lemma_add_mod_noop(m + x, qq - m, qq);
        lemma_add_mod_noop(m + y, qq - m, qq);
        lemma_mod_add_multiples_vanish(x, qq);
        lemma_mod_add_multiples_vanish(y, qq);
        lemma_small_mod(x as nat, Q as nat);
        lemma_small_mod(y as nat, Q as nat);
        assert((madd(m, x) + (qq - m) % qq) % qq == x);
        assert((madd(m, y) + (qq - m) % qq) % qq == y);
    }
}

/// The difference `a - b` (modulo `Q`) vanishes exactly when the two
/// reduced values are equal.
pub proof fn lemma_msub_zero(a: int, b: int)
    requires
        in_field(a),
        in_field(b),
    ensures
        (madd(a, mneg(b)) == 0) <==> (a == b),
{
    let qq = Q as int;
    if b == 0 {
        lemma_mod_self_0(qq);
        lemma_small_mod(a as nat, Q as nat);
    } else {
        lemma_small_mod((qq - b) as nat, Q as nat);
        if a == b {
            lemma_mod_self_0(qq);
        } else if a > b {
            lemma_mod_add_multiples_vanish(a - b, qq);
            lemma_small_mod((a - b) as nat, Q as nat);
        } else {
            lemma_small_mod((a + qq - b) as nat, Q as nat);
        }
    }
}

/// Multiplication modulo `Q` is associative.
pub proof fn lemma_mmul_assoc(a: int, b: int, c: int)
    requires
        in_field(a),
        in_field(b),
        in_field(c),
    ensures
        mmul(a, mmul(b, c)) == mmul(mmul(a, b), c),
{
    let qq = Q as int;
    lemma_mul_mod_noop_right(a, b * c, qq);
    lemma_mul_mod_noop_left(a * b, c, qq);
    assert(a * (b * c) == (a * b) * c) by (nonlinear_arith);
}

/// A factor with a known inverse cancels: from `a * x == b * x`
/// (modulo `Q`) and `x * xinv == 1` follows `a == b`.
pub proof fn lemma_mmul_cancel(a: int, b: int, x: int, xinv: int)
    requires
        in_field(a),
        in_field(b),
        in_field(x),
        in_field(xinv),
        mmul(x, xinv) == 1,
        mmul(a, x) == mmul(b, x),
    ensures
        a == b,
{
    lemma_mmul_assoc(a, x, xinv);
    lemma_mmul_assoc(b, x, xinv);
    lemma_small_mod(a as nat, Q as nat);
    lemma_small_mod(b as nat, Q as nat);
    assert(mmul(a, 1) == a % (Q as int)) by {
        assert(a * 1 == a);
    }
    assert(mmul(b, 1) == b % (Q as int)) by {
        assert(b * 1 == b);
    }
    assert(a == mmul(a, mmul(x, xinv)));
    assert(b == mmul(b, mmul(x, xinv)));
}

} // verus!
