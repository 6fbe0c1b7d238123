//! The sum relation: two private scalars `a` and `b` add up to a public
//! scalar `c`, in the field.
use crate::circuits::field::{field_add, FieldElement};
use crate::circuits::system::{
    allocated, system_constraints, system_in_setup, system_inputs, system_satisfied,
    system_variables, system_witnesses, ConstraintSystem, SynthesisFailure,
};
use vstd::prelude::*;

verus! {

/// The sum relation with its assignment: each of `a`, `b` and `c` is a scalar
/// or unassigned.
#[derive(Clone, Copy, Debug, Default)]
pub struct SumCircuit {
    /// First private summand.
    pub a: Option<FieldElement>,
    /// Second private summand.
    pub b: Option<FieldElement>,
    /// The public sum.
    pub c: Option<FieldElement>,
}

impl SumCircuit {
    /// The relation with the given assignment.
    pub fn new(a: Option<FieldElement>, b: Option<FieldElement>, c: Option<FieldElement>) -> (r: SumCircuit)
        ensures
            r.a == a,
            r.b == b,
            r.c == c,
    {
        SumCircuit { a, b, c }
    }

    /// Whether all of `a`, `b` and `c` are assigned.
    pub open spec fn assigned(&self) -> bool {
        self.a is Some && self.b is Some && self.c is Some
    }

    /// The sum of `a` and `b` in the field.
    pub open spec fn total(&self) -> nat
        recommends
            self.a is Some,
            self.b is Some,
    {
        field_add(self.a->0.value(), self.b->0.value())
    }

    /// Whether the relation holds: all three are assigned and `a + b = c` in
    /// the field.
    pub open spec fn holds(&self) -> bool {
        &&& self.assigned()
        &&& self.total() == self.c->0.value()
    }

    /// The values of the public inputs, in the order in which the relation
    /// allocates them: `c` alone.
    pub open spec fn public_inputs(&self) -> Seq<nat>
        recommends
            self.c is Some,
    {
        seq![self.c->0.value()]
    }

    /// The values of the private witnesses, in the order in which the
    /// relation allocates them: `a`, then `b`.
    pub open spec fn witness_values(&self) -> Seq<nat>
        recommends
            self.a is Some,
            self.b is Some,
    {
        seq![self.a->0.value(), self.b->0.value()]
    }

    /// The values of the variables that the relation allocates, in order:
    /// `a`, `b`, `c`, and the sum of `a` and `b`.
    pub open spec fn variable_values(&self) -> Seq<nat>
        recommends
            self.assigned(),
    {
        seq![self.a->0.value(), self.b->0.value(), self.c->0.value(), self.total()]
    }

    /// Whether the relation holds of its assignment.
    pub fn is_satisfied(&self) -> (r: bool)
        ensures
            r == self.holds(),
    {
        match (self.a, self.b, self.c) {
            (Some(a), Some(b), Some(c)) => {
                let sum = a.add(&b);
                proof {
                    FieldElement::lemma_value_injective(sum, c);
                }
                sum == c
            },
            _ => false,
        }
    }

    /// Why the relation cannot be written into a system in the given mode, if
    /// it cannot: outside key generation a value is unassigned.
    pub open spec fn failure(&self, in_setup: bool) -> Option<SynthesisFailure> {
        if !in_setup && !self.assigned() {
            Some(SynthesisFailure::AssignmentMissing)
        } else {
            None
        }
    }

    /// Writes the relation into `cs`.
    ///
    /// Outside key generation it fails, before anything is allocated, if any
    /// of `a`, `b` and `c` is unassigned. Otherwise `a` and `b` become
    /// private witnesses, in this order, `c` becomes a public input, and one
    /// constraint asks that the sum of `a` and `b` equals `c`: one input, two
    /// witnesses and one constraint, whatever the values. In proving mode
    /// the system is then satisfied exactly if it was before and `a + b = c`;
    /// during key generation, where nothing has a value, it is not.
    pub fn generate_constraints(self, cs: &mut ConstraintSystem) -> (r: Result<(), SynthesisFailure>)
        ensures
            r == (match self.failure(system_in_setup(*old(cs))) {
                Some(e) => Err::<(), SynthesisFailure>(e),
                None => Ok::<(), SynthesisFailure>(()),
            }),
            r is Err ==> *final(cs) == *old(cs),
            system_in_setup(*final(cs)) == system_in_setup(*old(cs)),
            r is Ok ==> system_inputs(*final(cs)) == system_inputs(*old(cs)) + allocated(
                system_in_setup(*old(cs)),
                self.public_inputs(),
            ),
            r is Ok ==> system_witnesses(*final(cs)) == system_witnesses(*old(cs)) + allocated(
                system_in_setup(*old(cs)),
                self.witness_values(),
            ),
            r is Ok ==> system_variables(*final(cs)) == system_variables(*old(cs)) + allocated(
                system_in_setup(*old(cs)),
                self.variable_values(),
            ),
            r is Ok ==> system_constraints(*final(cs)) == system_constraints(*old(cs)) + 1,
            r is Ok ==> system_satisfied(*final(cs)) == (system_satisfied(*old(cs))
                && !system_in_setup(*old(cs)) && self.holds()),
    {
        if !cs.in_setup_mode() && (self.a.is_none() || self.b.is_none() || self.c.is_none()) {
            return Err(SynthesisFailure::AssignmentMissing);
        }
        let a_var = match cs.new_witness(self.a) {
            Ok(variable) => variable,
            Err(e) => {
                return Err(e);
            },
        };
        let b_var = match cs.new_witness(self.b) {
            Ok(variable) => variable,
            Err(e) => {
                return Err(e);
            },
        };
        let c_var = match cs.new_input(self.c) {
            Ok(variable) => variable,
            Err(e) => {
                return Err(e);
            },
        };

        // Add them together
        let sum = cs.add(a_var, b_var);
        // Enforce that their sum equals the public output
        let r = match cs.enforce_equal(sum, c_var) {
            Ok(()) => Ok(()),
            Err(e) => Err(e),
        };
        proof {
            let in_setup = system_in_setup(*old(cs));
            assert(system_inputs(*cs) =~= system_inputs(*old(cs)) + allocated(
                in_setup,
                self.public_inputs(),
            ));
            assert(system_witnesses(*cs) =~= system_witnesses(*old(cs)) + allocated(
                in_setup,
                self.witness_values(),
            ));
            assert(system_variables(*cs) =~= system_variables(*old(cs)) + allocated(
                in_setup,
                self.variable_values(),
            ));
        }
        r
    }
}

} // verus!
