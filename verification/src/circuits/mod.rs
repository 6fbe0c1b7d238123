//! The relations and what they are built on.
//!
//! * `field`: scalars and the byte encoder
//! * `system`: the engine's constraint system, as the relations see it
//! * `sum`: two private numbers that add up to a public one
//! * `compare`: a private string that starts with a public one
//! * `groth16`: keys, proofs, their bytes, and the proving pipeline
use crate::circuits::compare::CompareCircuit;
use crate::circuits::field::{values, FieldElement};
use crate::circuits::sum::SumCircuit;
use crate::circuits::system::{
    allocated, system_constraints, system_in_setup, system_inputs, system_satisfied,
    system_variables, system_witnesses, ConstraintSystem, SynthesisFailure,
};
use vstd::prelude::*;

pub mod compare;
pub mod field;
pub mod groth16;
pub mod sum;
pub mod system;

verus! {

/// A relation with its assignment: one of the two that this library proves.
#[derive(Clone, Debug)]
pub enum Circuit {
    /// The sum relation.
    Sum(SumCircuit),
    /// The prefix relation.
    Compare(CompareCircuit),
}

impl Circuit {
    /// Whether the relation holds of its assignment.
    pub open spec fn holds(&self) -> bool {
        match self {
            Circuit::Sum(c) => c.holds(),
            Circuit::Compare(c) => c.holds(),
        }
    }

    /// Why the relation cannot be written into a system in the given mode, if
    /// it cannot.
    pub open spec fn failure(&self, in_setup: bool) -> Option<SynthesisFailure> {
        match self {
            Circuit::Sum(c) => c.failure(in_setup),
            Circuit::Compare(c) => c.failure(),
        }
    }

    /// The values of the public inputs, in the order in which the relation
    /// allocates them. Verification takes them in this order.
    pub open spec fn public_inputs(&self) -> Seq<nat> {
        match self {
            Circuit::Sum(c) => c.public_inputs(),
            Circuit::Compare(c) => c.public_inputs(),
        }
    }

    /// The values of the private witnesses, in the order in which the
    /// relation allocates them.
    pub open spec fn witness_values(&self) -> Seq<nat> {
        match self {
            Circuit::Sum(c) => c.witness_values(),
            Circuit::Compare(c) => c.witness_values(),
        }
    }

    /// The values of the variables that the relation allocates, in order.
    pub open spec fn variable_values(&self) -> Seq<nat> {
        match self {
            Circuit::Sum(c) => c.variable_values(),
            Circuit::Compare(c) => c.variable_values(),
        }
    }

    /// The number of constraints that the relation asks for: one for the sum
    /// relation, one for each scalar of the shorter string for the prefix
    /// relation.
    pub open spec fn constraints(&self) -> nat {
        match self {
            Circuit::Sum(c) => 1,
            Circuit::Compare(c) => c.shorter_values().len(),
        }
    }

    /// Writes the relation into `cs`: see `SumCircuit::generate_constraints`
    /// and `CompareCircuit::generate_constraints`.
    ///
    /// On failure `cs` is as it was. On success the relation's inputs,
    /// witnesses and constraints have been added, as many as the relation
    /// has whatever the values are; in proving mode each variable has its
    /// value, and the system is satisfied exactly if it was before and the
    /// relation holds.
    pub fn generate_constraints(self, cs: &mut ConstraintSystem) -> (r: Result<(), SynthesisFailure>)
        ensures
            r == (match self.failure(system_in_setup(*old(cs))) {
                Some(e) => Err::<(), SynthesisFailure>(e),
                None => Ok::<(), SynthesisFailure>(()),
            }),
            r is Err ==> *final(cs) == *old(cs),
            system_in_setup(*final(cs)) == system_in_setup(*old(cs)),
            r is Ok ==> system_inputs(*final(cs)) == system_inputs(*old(cs)) + allocated(
                system_in_setup(*old(cs)),
                self.public_inputs(),
            ),
            r is Ok ==> system_witnesses(*final(cs)) == system_witnesses(*old(cs)) + allocated(
                system_in_setup(*old(cs)),
                self.witness_values(),
            ),
            r is Ok ==> system_variables(*final(cs)) == system_variables(*old(cs)) + allocated(
                system_in_setup(*old(cs)),
                self.variable_values(),
            ),
            r is Ok ==> system_constraints(*final(cs)) == system_constraints(*old(cs))
                + self.constraints(),
            r is Ok ==> system_satisfied(*final(cs)) == (system_satisfied(*old(cs)) && (
            self.constraints() == 0 || (!system_in_setup(*old(cs)) && self.holds()))),
    {
        match self {
            Circuit::Sum(c) => c.generate_constraints(cs),
            Circuit::Compare(c) => c.generate_constraints(cs),
        }
    }

    /// Whether the relation holds of its assignment.
    pub fn is_satisfied(&self) -> (r: bool)
        ensures
            r == self.holds(),
    {
        match self {
            Circuit::Sum(c) => c.is_satisfied(),
            Circuit::Compare(c) => c.is_satisfied(),
        }
    }

    /// The public inputs of the relation, in the order in which it allocates
    /// them, if they are assigned.
    pub fn public_input(&self) -> (r: Option<Vec<FieldElement>>)
        ensures
            match self {
                Circuit::Sum(c) => r is Some <==> c.c is Some,
                Circuit::Compare(c) => r is Some <==> c.shorter is Some,
            },
            r matches Some(inputs) ==> values(inputs@) == self.public_inputs(),
    {
        match self {
            Circuit::Sum(c) => match c.c {
                Some(value) => {
                    let mut inputs: Vec<FieldElement> = Vec::new();
                    inputs.push(value);
                    assert(values(inputs@) =~= c.public_inputs());
                    Some(inputs)
                },
                None => None,
            },
            Circuit::Compare(c) => match &c.shorter {
                Some(shorter) => {
                    let mut inputs: Vec<FieldElement> = Vec::new();
                    let mut i: usize = 0;
                    while i < shorter.len()
                        invariant
                            i <= shorter.len(),
                            inputs.len() == i,
                            forall|j: int| 0 <= j < i ==> #[trigger] inputs@[j] == shorter@[j],
                        decreases shorter.len() - i,
                    {
                        inputs.push(shorter[i]);
                        i += 1;
                    }
                    assert(inputs@ =~= shorter@);
                    Some(inputs)
                },
                None => None,
            },
        }
    }
}

} // verus!
