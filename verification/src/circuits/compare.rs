//! The prefix relation: a private string starts with a public, shorter one.
//!
//! Both strings are given as scalars, one for each byte. The shorter one is
//! public; of the larger one nothing is disclosed but that it starts with the
//! shorter one.
use crate::circuits::field::{values, FieldElement};
use crate::circuits::system::{
    allocated, system_constraints, system_in_setup, system_inputs, system_satisfied,
    system_variables, system_witnesses, ConstraintSystem, SynthesisFailure,
};
use vstd::prelude::*;

verus! {

/// Whether `larger` starts with `shorter`.
pub open spec fn starts_with(larger: Seq<nat>, shorter: Seq<nat>) -> bool {
    &&& shorter.len() <= larger.len()
    &&& forall|i: int| 0 <= i < shorter.len() ==> larger[i] == shorter[i]
}

/// The prefix relation with its assignment: the public shorter string and the
/// private larger string, each possibly unassigned.
#[derive(Clone, Debug, Default)]
pub struct CompareCircuit {
    /// The public shorter string.
    pub shorter: Option<Vec<FieldElement>>,
    /// The private larger string.
    pub larger: Option<Vec<FieldElement>>,
}

impl CompareCircuit {
    /// Whether both strings are assigned.
    pub open spec fn assigned(&self) -> bool {
        self.shorter is Some && self.larger is Some
    }

    /// The values of the scalars of the shorter string.
    pub open spec fn shorter_values(&self) -> Seq<nat>
        recommends
            self.shorter is Some,
    {
        values(self.shorter->0@)
    }

    /// The values of the scalars of the larger string.
    pub open spec fn larger_values(&self) -> Seq<nat>
        recommends
            self.larger is Some,
    {
        values(self.larger->0@)
    }

    /// Whether the shorter string is no longer than the larger one.
    pub open spec fn fits(&self) -> bool {
        self.shorter_values().len() <= self.larger_values().len()
    }

    /// Whether the relation holds: both strings are assigned and the larger
    /// one starts with the shorter one.
    pub open spec fn holds(&self) -> bool {
        &&& self.assigned()
        &&& starts_with(self.larger_values(), self.shorter_values())
    }

    /// The values of the public inputs, in the order in which the relation
    /// allocates them: the scalars of the shorter string.
    pub open spec fn public_inputs(&self) -> Seq<nat>
        recommends
            self.shorter is Some,
    {
        self.shorter_values()
    }

    /// The values of the private witnesses, in the order in which the
    /// relation allocates them: as many scalars from the start of the larger
    /// string as the shorter string has.
    pub open spec fn witness_values(&self) -> Seq<nat>
        recommends
            self.assigned(),
            self.fits(),
    {
        self.larger_values().take(self.shorter_values().len() as int)
    }

    /// The values of the variables that the relation allocates, in order: the
    /// public inputs, then the private witnesses.
    pub open spec fn variable_values(&self) -> Seq<nat>
        recommends
            self.assigned(),
            self.fits(),
    {
        self.public_inputs() + self.witness_values()
    }

    /// Whether the relation holds of its assignment.
    pub fn is_satisfied(&self) -> (r: bool)
        ensures
            r == self.holds(),
    {
        match (&self.shorter, &self.larger) {
            (Some(shorter), Some(larger)) => {
                if shorter.len() > larger.len() {
                    return false;
                }
                let mut i: usize = 0;
                while i < shorter.len()
                    invariant
                        i <= shorter.len(),
                        shorter.len() <= larger.len(),
                        self.shorter == Some(*shorter),
                        self.larger == Some(*larger),
                        forall|j: int|
                            0 <= j < i ==> (#[trigger] larger@[j]).value() == shorter@[j].value(),
                    decreases shorter.len() - i,
                {
                    proof {
                        FieldElement::lemma_value_injective(larger@[i as int], shorter@[i as int]);
                    }
                    if !(larger[i] == shorter[i]) {
                        assert(values(larger@)[i as int] != values(shorter@)[i as int]);
                        return false;
                    }
                    i += 1;
                }
                assert forall|j: int| 0 <= j < values(shorter@).len() implies values(larger@)[j]
                    == values(shorter@)[j] by {
                    assert(larger@[j].value() == shorter@[j].value());
                }
                true
            },
            _ => false,
        }
    }

    /// Why the relation cannot be written into a system, if it cannot: a
    /// string is unassigned, or the shorter string is longer than the larger
    /// one.
    pub open spec fn failure(&self) -> Option<SynthesisFailure> {
        if !self.assigned() {
            Some(SynthesisFailure::AssignmentMissing)
        } else if !self.fits() {
            Some(SynthesisFailure::Unsatisfiable)
        } else {
            None
        }
    }

    /// Writes the relation into `cs`.
    ///
    /// Fails, before anything is allocated, if a string is unassigned or the
    /// shorter string is longer than the larger one. Otherwise every scalar
    /// of the shorter string becomes a public input, in order; the scalars at
    /// the same places of the larger string become private witnesses, in
    /// order; and for each place one constraint asks that the two are equal:
    /// as many inputs, witnesses and constraints as the shorter string has
    /// scalars. In proving mode the system is then satisfied exactly if it
    /// was before and the larger string starts with the shorter one.
    pub fn generate_constraints(self, cs: &mut ConstraintSystem) -> (r: Result<(), SynthesisFailure>)
        ensures
            r == (match self.failure() {
                Some(e) => Err::<(), SynthesisFailure>(e),
                None => Ok::<(), SynthesisFailure>(()),
            }),
            r is Err ==> *final(cs) == *old(cs),
            system_in_setup(*final(cs)) == system_in_setup(*old(cs)),
            r is Ok ==> system_inputs(*final(cs)) == system_inputs(*old(cs)) + allocated(
                system_in_setup(*old(cs)),
                self.public_inputs(),
            ),
            r is Ok ==> system_witnesses(*final(cs)) == system_witnesses(*old(cs)) + allocated(
                system_in_setup(*old(cs)),
                self.witness_values(),
            ),
            r is Ok ==> system_variables(*final(cs)) == system_variables(*old(cs)) + allocated(
                system_in_setup(*old(cs)),
                self.variable_values(),
            ),
            r is Ok ==> system_constraints(*final(cs)) == system_constraints(*old(cs))
                + self.shorter_values().len(),
            r is Ok ==> system_satisfied(*final(cs)) == (system_satisfied(*old(cs)) && (
            self.shorter_values().len() == 0 || (!system_in_setup(*old(cs)) && self.holds()))),
    {
        let shorter = match self.shorter {
            Some(shorter) => shorter,
            None => {
                return Err(SynthesisFailure::AssignmentMissing);
            },
        };
        let larger = match self.larger {
            Some(larger) => larger,
            None => {
                return Err(SynthesisFailure::AssignmentMissing);
            },
        };
        if shorter.len() > larger.len() {
            return Err(SynthesisFailure::Unsatisfiable);
        }
        let ghost before = *cs;
        let ghost in_setup = system_in_setup(before);
        let ghost base = system_variables(before).len() as int;
        let ghost public = values(shorter@);
        let ghost private = values(larger@);
        let count = shorter.len();

        // Public
        let mut shorter_vars: Vec<usize> = Vec::new();
        let mut i: usize = 0;
        while i < count
            invariant
                i <= count,
                count == shorter.len(),
                shorter_vars.len() == i,
                public == values(shorter@),
                in_setup == system_in_setup(before),
                base == system_variables(before).len(),
                system_in_setup(*cs) == in_setup,
                system_variables(*cs) == system_variables(before) + allocated(
                    in_setup,
                    public.take(i as int),
                ),
                system_inputs(*cs) == system_inputs(before) + allocated(
                    in_setup,
                    public.take(i as int),
                ),
                system_witnesses(*cs) == system_witnesses(before),
                system_constraints(*cs) == system_constraints(before),
                system_satisfied(*cs) == system_satisfied(before),
                forall|j: int| 0 <= j < i ==> #[trigger] shorter_vars@[j] == base + j,
            decreases count - i,
        {
            let variable = match cs.new_input(Some(shorter[i])) {
                Ok(variable) => variable,
                Err(e) => {
                    return Err(e);
                },
            };
            shorter_vars.push(variable);
            i += 1;
            assert(system_variables(*cs) =~= system_variables(before) + allocated(
                in_setup,
                public.take(i as int),
            ));
            assert(system_inputs(*cs) =~= system_inputs(before) + allocated(
                in_setup,
                public.take(i as int),
            ));
        }
        assert(public.take(count as int) =~= public);
        let ghost middle = base + count;

        // Witness
        let mut larger_vars: Vec<usize> = Vec::new();
        let mut i: usize = 0;
        while i < count
            invariant
                i <= count,
                count == shorter.len(),
                count <= larger.len(),
                larger_vars.len() == i,
                public == values(shorter@),
                private == values(larger@),
                in_setup == system_in_setup(before),
                base == system_variables(before).len(),
                middle == base + count,
                system_in_setup(*cs) == in_setup,
                system_variables(*cs) == system_variables(before) + allocated(in_setup, public)
                    + allocated(in_setup, private.take(i as int)),
                system_inputs(*cs) == system_inputs(before) + allocated(in_setup, public),
                system_witnesses(*cs) == system_witnesses(before) + allocated(
                    in_setup,
                    private.take(i as int),
                ),
                system_constraints(*cs) == system_constraints(before),
                system_satisfied(*cs) == system_satisfied(before),
                forall|j: int| 0 <= j < i ==> #[trigger] larger_vars@[j] == middle + j,
            decreases count - i,
        {
            let variable = match cs.new_witness(Some(larger[i])) {
                Ok(variable) => variable,
                Err(e) => {
                    return Err(e);
                },
            };
            larger_vars.push(variable);
            i += 1;
            assert(system_variables(*cs) =~= system_variables(before) + allocated(in_setup, public)
                + allocated(in_setup, private.take(i as int)));
            assert(system_witnesses(*cs) =~= system_witnesses(before) + allocated(
                in_setup,
                private.take(i as int),
            ));
        }
        let ghost allocated_system = *cs;
        let ghost taken = private.take(count as int);

        let mut i: usize = 0;
        while i < count
            invariant
                i <= count,
                count == shorter.len(),
                count <= larger.len(),
                shorter_vars.len() == count,
                larger_vars.len() == count,
                public == values(shorter@),
                private == values(larger@),
                taken == private.take(count as int),
                in_setup == system_in_setup(before),
                base == system_variables(before).len(),
                middle == base + count,
                system_in_setup(*cs) == in_setup,
                system_variables(*cs) == system_variables(before) + allocated(in_setup, public)
                    + allocated(in_setup, taken),
                system_inputs(*cs) == system_inputs(allocated_system),
                system_witnesses(*cs) == system_witnesses(allocated_system),
                system_constraints(*cs) == system_constraints(before) + i,
                forall|j: int| 0 <= j < count ==> #[trigger] shorter_vars@[j] == base + j,
                forall|j: int| 0 <= j < count ==> #[trigger] larger_vars@[j] == middle + j,
                system_satisfied(*cs) == (system_satisfied(before) && (i == 0 || (!in_setup
                    && forall|j: int| 0 <= j < i ==> #[trigger] private[j] == public[j]))),
            decreases count - i,
        {
            let ghost step = *cs;
            assert(shorter_vars@[i as int] == base + i);
            assert(larger_vars@[i as int] == middle + i);
            assert(system_variables(step)[middle + i] == allocated(in_setup, taken)[i as int]);
            assert(system_variables(step)[base + i] == allocated(in_setup, public)[i as int]);
            match cs.enforce_equal(larger_vars[i], shorter_vars[i]) {
                Ok(()) => {},
                Err(e) => {
                    return Err(e);
                },
            }
            i += 1;
        }
        proof {
            assert(system_variables(*cs) =~= system_variables(before) + allocated(
                in_setup,
                public + taken,
            ));
            assert((forall|j: int| 0 <= j < count ==> #[trigger] private[j] == public[j])
                == starts_with(private, public));
        }
        Ok(())
    }
}

} // verus!
