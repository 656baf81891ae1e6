//! The constraint-system substrate the relation is built over.
//!
//! A system tracks the public-input vector in allocation order and
//! the emitted equality constraints.  A system is either in setup
//! mode — the
//! circuit is only inspected for shape, no assignment is required and
//! allocated variables carry no values — or in proving mode, where
//! every statement and witness slot must be assigned.

use vstd::prelude::*;

verus! {

/// The three classes a circuit variable can be allocated under.
#[derive(Clone, Copy, PartialEq, Eq, Structural, Debug)]
pub enum AllocationMode {
    Constant,
    Input,
    Witness,
}

/// The one error the substrate can raise: a statement or witness slot
/// was left unset while a concrete assignment was required.
#[derive(Clone, Copy, PartialEq, Eq, Structural, Debug)]
pub enum SynthesisError {
    AssignmentMissing,
}

/// One equality constraint between two in-circuit values.  In setup
/// mode the sides carry no values.
pub type EqConstraint = (Option<u64>, Option<u64>);

/// An equality constraint holds when both sides carry equal values.
pub open spec fn constraint_holds(c: EqConstraint) -> bool {
    match c {
        (Some(a), Some(b)) => a == b,
        _ => false,
    }
}

pub struct ConstraintSystem {
    /// Shape-only inspection: no assignment required, no values kept.
    pub setup_mode: bool,
    /// Values of the statement inputs, in allocation order.
    pub instance_assignment: Vec<u64>,
    pub constraints: Vec<EqConstraint>,
}

/// All emitted constraints hold.
pub open spec fn cs_satisfied(cs: ConstraintSystem) -> bool {
    forall|i: int| 0 <= i < cs.constraints@.len() ==> constraint_holds(#[trigger] cs.constraints@[i])
}

/// Appending one constraint: the extended system is satisfied
/// exactly when the original one is and the new constraint holds.
pub proof fn lemma_satisfied_after_one(
    cs0: ConstraintSystem,
    cs1: ConstraintSystem,
    k: EqConstraint,
)
    requires
        cs1.constraints@ == cs0.constraints@.push(k),
    ensures
        cs_satisfied(cs1) <==> (cs_satisfied(cs0) && constraint_holds(k)),
{
    let n = cs0.constraints@.len() as int;
    assert(cs1.constraints@[n] == k);
    if cs_satisfied(cs1) {
        assert forall|i: int| 0 <= i < n implies constraint_holds(#[trigger] cs0.constraints@[i]) by {
            assert(cs1.constraints@[i] == cs0.constraints@[i]);
            assert(constraint_holds(cs1.constraints@[i]));
        }
    }
    if cs_satisfied(cs0) && constraint_holds(k) {
        assert forall|i: int| 0 <= i < n + 1 implies constraint_holds(
            #[trigger] cs1.constraints@[i],
        ) by {
            if i < n {
                assert(cs1.constraints@[i] == cs0.constraints@[i]);
                assert(constraint_holds(cs0.constraints@[i]));
            }
        }
    }
}

/// Appending two constraints: the extended system is satisfied
/// exactly when the original one is and both new constraints hold.
pub proof fn lemma_satisfied_after_two(
    cs0: ConstraintSystem,
    cs1: ConstraintSystem,
    k1: EqConstraint,
    k2: EqConstraint,
)
    requires
        cs1.constraints@ == cs0.constraints@.push(k1).push(k2),
    ensures
        cs_satisfied(cs1) <==> (cs_satisfied(cs0) && constraint_holds(k1) && constraint_holds(k2)),
{
    let n = cs0.constraints@.len() as int;
    assert(cs1.constraints@.len() == n + 2);
    assert(cs1.constraints@[n] == k1);
    assert(cs1.constraints@[n + 1] == k2);
    if cs_satisfied(cs1) {
        assert forall|i: int| 0 <= i < n implies constraint_holds(#[trigger] cs0.constraints@[i]) by {
            assert(cs1.constraints@[i] == cs0.constraints@[i]);
            assert(constraint_holds(cs1.constraints@[i]));
        }
    }
    if cs_satisfied(cs0) && constraint_holds(k1) && constraint_holds(k2) {
        assert forall|i: int| 0 <= i < n + 2 implies constraint_holds(
            #[trigger] cs1.constraints@[i],
        ) by {
            if i < n {
                assert(cs1.constraints@[i] == cs0.constraints@[i]);
                assert(constraint_holds(cs0.constraints@[i]));
            }
        }
    }
}

impl ConstraintSystem {
    /// A fresh system in proving mode.
    pub fn new_ref() -> (cs: ConstraintSystem)
        ensures
            !cs.setup_mode,
            cs.instance_assignment@ =~= Seq::<u64>::empty(),
            cs.constraints@ =~= Seq::<EqConstraint>::empty(),
            cs_satisfied(cs),
    {
        ConstraintSystem {
            setup_mode: false,
            instance_assignment: Vec::new(),
            constraints: Vec::new(),
        }
    }

    /// A fresh system in setup mode, for inspecting circuit shape.
    pub fn new_setup() -> (cs: ConstraintSystem)
        ensures
            cs.setup_mode,
            cs.instance_assignment@ =~= Seq::<u64>::empty(),
            cs.constraints@ =~= Seq::<EqConstraint>::empty(),
    {
        ConstraintSystem {
            setup_mode: true,
            instance_assignment: Vec::new(),
            constraints: Vec::new(),
        }
    }

    pub fn num_constraints(&self) -> (n: usize)
        ensures
            n == self.constraints@.len(),
    {
        self.constraints.len()
    }

    /// Record one equality constraint.
    pub fn enforce_equal_values(&mut self, left: Option<u64>, right: Option<u64>)
        ensures
            final(self).constraints@ == old(self).constraints@.push((left, right)),
            final(self).setup_mode == old(self).setup_mode,
            final(self).instance_assignment@ == old(self).instance_assignment@,
    {
        self.constraints.push((left, right));
    }

    /// Whether every emitted constraint holds.  In setup mode there is
    /// no assignment to check against, so this fails.
    pub fn is_satisfied(&self) -> (r: Result<bool, SynthesisError>)
        ensures
            self.setup_mode ==> r == Err::<bool, SynthesisError>(SynthesisError::AssignmentMissing),
            !self.setup_mode ==> r == Ok::<bool, SynthesisError>(cs_satisfied(*self)),
    {
        if self.setup_mode {
            return Err(SynthesisError::AssignmentMissing);
        }
        let mut i: usize = 0;
        let n: usize = self.constraints.len();
        while i < n
            invariant
                !self.setup_mode,
                0 <= i <= n,
                n == self.constraints@.len(),
                forall|j: int| 0 <= j < i ==> constraint_holds(#[trigger] self.constraints@[j]),
            decreases n - i,
        {
            let c = self.constraints[i];
            let holds = match c {
                (Some(a), Some(b)) => a == b,
                _ => false,
            };
            if !holds {
                assert(!constraint_holds(self.constraints@[i as int]));
                return Ok(false);
            }
            i = i + 1;
        }
        Ok(true)
    }
}

} // verus!
