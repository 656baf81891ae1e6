//! The model group: the additive cyclic group of order `Q`.
//!
//! A group element is a single reduced scalar; the group operation is
//! addition modulo `Q`, and multiplying an element by a scalar is
//! multiplication modulo `Q`.  This keeps every group law within reach
//! of the verifier while the encryption scheme and the relation built
//! on top of it stay exactly as they would read over any other group.

use vstd::prelude::*;

verus! {

use crate::modular::{Q, madd, mmul, mneg, add_mod, mul_mod, neg_mod};

/// One element of the model group, always reduced modulo `Q`.
#[derive(Clone, Copy, PartialEq, Eq, Structural, Debug)]
pub struct GroupElem(pub u64);

impl GroupElem {
    /// The element is in canonical reduced form.
    pub open spec fn wf(self) -> bool {
        self.0 < Q
    }
}

/// The group operation.
pub fn group_add(a: GroupElem, b: GroupElem) -> (r: GroupElem)
    requires
        a.wf(),
        b.wf(),
    ensures
        r.0 == madd(a.0 as int, b.0 as int),
        r.wf(),
{
    GroupElem(add_mod(a.0, b.0))
}

/// The inverse of a group element.
pub fn group_neg(a: GroupElem) -> (r: GroupElem)
    requires
        a.wf(),
    ensures
        r.0 == mneg(a.0 as int),
        r.wf(),
{
    GroupElem(neg_mod(a.0))
}

/// Scalar multiplication: the element repeated `s` times.
pub fn scalar_mul(s: u64, p: GroupElem) -> (r: GroupElem)
    requires
        s < Q,
        p.wf(),
    ensures
        r.0 == mmul(s as int, p.0 as int),
        r.wf(),
{
    GroupElem(mul_mod(s, p.0))
}

} // verus!
