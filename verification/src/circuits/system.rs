//! The engine's rank-1 constraint system, as the relations see it.
//!
//! A relation writes itself into a system by allocating variables and asking
//! for equalities between them. The system and its variables are the
//! engine's; what is known of them here is what the engine's methods are
//! trusted to do, stated over the sequences below.
use crate::circuits::field::{field_add, FieldElement};
use ark_bn254::Fr;
use ark_ff::BigInt;
use ark_r1cs_std::alloc::AllocVar;
use ark_r1cs_std::eq::EqGadget;
use ark_r1cs_std::fields::fp::FpVar;
use ark_relations::r1cs::{ConstraintSystemRef, SynthesisError};
use std::cell::RefCell;
use std::rc::Rc;
use vstd::prelude::*;

verus! {

/// The engine's error type, `ark_relations::r1cs::SynthesisError`.
#[verifier::external_type_specification]
#[verifier::external_body]
pub struct ExSynthesisError(SynthesisError);

/// Why synthesis, key generation, proving or verification gave up. One
/// variant for each variant of the engine's `SynthesisError`, under the same
/// name.
#[derive(Clone, Copy, Debug, PartialEq, Eq, Structural)]
pub enum SynthesisFailure {
    /// A variable was to be allocated without a constraint system.
    MissingCS,
    /// A value that had to be known was not assigned.
    AssignmentMissing,
    /// A division by zero.
    DivisionByZero,
    /// The constraint system cannot be or is not satisfied.
    Unsatisfiable,
    /// The system is too large for the field's evaluation domains.
    PolynomialDegreeTooLarge,
    /// An identity element turned up where none may be.
    UnexpectedIdentity,
    /// The verifying key does not fit the public inputs.
    MalformedVerifyingKey,
    /// A witness variable is bound by no constraint.
    UnconstrainedVariable,
}

/// A rank-1 constraint system of the engine together with the field variables
/// that were allocated in it through this type, in the order of their
/// allocation. A variable is named by its position in that order.
///
/// The fields are public for the implementation of the engine's synthesis
/// trait, which only ordinary Rust can write: it is handed a system that the
/// engine has just made, puts it here with no variables, and calls
/// `Circuit::generate_constraints`. The contracts below are stated of systems
/// that were made by `new` or handed over in that way.
#[verifier::external_body]
pub struct ConstraintSystem {
    pub inner: Rc<RefCell<ark_relations::r1cs::ConstraintSystem<Fr>>>,
    pub variables: Vec<FpVar<Fr>>,
}

/// Whether the system is in key-generation mode, in which variables are
/// allocated without values.
pub uninterp spec fn system_in_setup(cs: ConstraintSystem) -> bool;

/// The field variables allocated through the system, in order, each with the
/// value that the system assigns to it, if it assigns one.
pub uninterp spec fn system_variables(cs: ConstraintSystem) -> Seq<Option<nat>>;

/// The public input variables of the system, in the order of their
/// allocation, each with its assigned value, if it has one. The constant
/// one, which the engine counts as its first public input, is not among them.
pub uninterp spec fn system_inputs(cs: ConstraintSystem) -> Seq<Option<nat>>;

/// The private witness variables of the system, in the order of their
/// allocation, each with its assigned value, if it has one.
pub uninterp spec fn system_witnesses(cs: ConstraintSystem) -> Seq<Option<nat>>;

/// The number of constraints in the system.
pub uninterp spec fn system_constraints(cs: ConstraintSystem) -> nat;

/// Whether the system's assignment satisfies all of its constraints: whether
/// the engine's `is_satisfied` answers that it does.
pub uninterp spec fn system_satisfied(cs: ConstraintSystem) -> bool;

/// Whether every input and witness variable of the system has a value.
pub open spec fn system_assigned(cs: ConstraintSystem) -> bool {
    &&& !system_in_setup(cs)
    &&& forall|i: int| 0 <= i < system_inputs(cs).len() ==> (#[trigger] system_inputs(cs)[i]) is Some
    &&& forall|i: int|
        0 <= i < system_witnesses(cs).len() ==> (#[trigger] system_witnesses(cs)[i]) is Some
}

/// The value that a variable gets when it is allocated with `value` offered:
/// none during key generation, the offered one otherwise.
pub open spec fn allocated_value(in_setup: bool, value: Option<FieldElement>) -> Option<nat> {
    if in_setup {
        None
    } else {
        match value {
            Some(x) => Some(x.value()),
            None => None,
        }
    }
}

/// The values that variables get when they are allocated one after the other
/// with `values` offered: none during key generation, the offered ones
/// otherwise.
pub open spec fn allocated(in_setup: bool, values: Seq<nat>) -> Seq<Option<nat>> {
    Seq::new(
        values.len(),
        |i: int|
            if in_setup {
                None
            } else {
                Some(values[i])
            },
    )
}

/// The value of the sum of two variables: the field sum where both have a
/// value, none otherwise.
pub open spec fn sum_value(x: Option<nat>, y: Option<nat>) -> Option<nat> {
    match (x, y) {
        (Some(a), Some(b)) => Some(field_add(a, b)),
        _ => None,
    }
}

/// Whether two variables have the same value, and have one.
pub open spec fn same_value(x: Option<nat>, y: Option<nat>) -> bool {
    x is Some && x == y
}

/// How many variables and constraints a system has.
#[derive(Clone, Copy, Debug, PartialEq, Eq, Structural)]
pub struct Shape {
    /// The number of public input variables, the constant one not counted.
    pub inputs: usize,
    /// The number of private witness variables.
    pub witnesses: usize,
    /// The number of constraints.
    pub constraints: usize,
}

/// Tells the variants of `SynthesisError` apart.
#[verifier::external_body]
pub(crate) fn failure_of(error: SynthesisError) -> SynthesisFailure {
    match error {
        SynthesisError::MissingCS => SynthesisFailure::MissingCS,
        SynthesisError::AssignmentMissing => SynthesisFailure::AssignmentMissing,
        SynthesisError::DivisionByZero => SynthesisFailure::DivisionByZero,
        SynthesisError::Unsatisfiable => SynthesisFailure::Unsatisfiable,
        SynthesisError::PolynomialDegreeTooLarge => SynthesisFailure::PolynomialDegreeTooLarge,
        SynthesisError::UnexpectedIdentity => SynthesisFailure::UnexpectedIdentity,
        SynthesisError::MalformedVerifyingKey => SynthesisFailure::MalformedVerifyingKey,
        SynthesisError::UnconstrainedVariable => SynthesisFailure::UnconstrainedVariable,
    }
}

impl ConstraintSystem {
    /// `ConstraintSystem::new` of the engine: an empty system in proving
    /// mode, which has no constraint to violate.
    #[verifier::external_body]
    pub(crate) fn new() -> (cs: ConstraintSystem)
        ensures
            !system_in_setup(cs),
            system_variables(cs) == Seq::<Option<nat>>::empty(),
            system_inputs(cs) == Seq::<Option<nat>>::empty(),
            system_witnesses(cs) == Seq::<Option<nat>>::empty(),
            system_constraints(cs) == 0,
            system_satisfied(cs),
    {
        let inner = Rc::new(RefCell::new(ark_relations::r1cs::ConstraintSystem::new()));
        ConstraintSystem { inner, variables: Vec::new() }
    }

    /// `ConstraintSystem::is_in_setup_mode` of the engine.
    #[verifier::external_body]
    pub(crate) fn in_setup_mode(&self) -> (r: bool)
        ensures
            r == system_in_setup(*self),
    {
        self.inner.borrow().is_in_setup_mode()
    }

    /// `FpVar::new_input` of the engine: allocates the next public input
    /// variable. During key generation the offered value is not looked at;
    /// otherwise it becomes the variable's value. Nothing else changes. The
    /// result names the new variable.
    #[verifier::external_body]
    pub(crate) fn new_input(&mut self, value: Option<FieldElement>) -> (r: Result<usize, SynthesisFailure>)
        requires
            system_in_setup(*old(self)) || value is Some,
        ensures
            r matches Ok(index) && index == system_variables(*old(self)).len(),
            system_in_setup(*final(self)) == system_in_setup(*old(self)),
            system_variables(*final(self)) == system_variables(*old(self)).push(
                allocated_value(system_in_setup(*old(self)), value),
            ),
            system_inputs(*final(self)) == system_inputs(*old(self)).push(
                allocated_value(system_in_setup(*old(self)), value),
            ),
            system_witnesses(*final(self)) == system_witnesses(*old(self)),
            system_constraints(*final(self)) == system_constraints(*old(self)),
            system_satisfied(*final(self)) == system_satisfied(*old(self)),
    {
        let index = self.variables.len();
        let scalar = value.map(|x| Fr::new(BigInt([x.l0, x.l1, x.l2, x.l3])));
        let offered = scalar.ok_or(SynthesisError::AssignmentMissing);
        let variable = FpVar::new_input(ConstraintSystemRef::CS(self.inner.clone()), || offered);
        self.variables.push(variable.map_err(failure_of)?);
        Ok(index)
    }

    /// `FpVar::new_witness` of the engine: allocates the next private witness
    /// variable. During key generation the offered value is not looked at;
    /// otherwise it becomes the variable's value. Nothing else changes. The
    /// result names the new variable.
    #[verifier::external_body]
    pub(crate) fn new_witness(&mut self, value: Option<FieldElement>) -> (r: Result<usize, SynthesisFailure>)
        requires
            system_in_setup(*old(self)) || value is Some,
        ensures
            r matches Ok(index) && index == system_variables(*old(self)).len(),
            system_in_setup(*final(self)) == system_in_setup(*old(self)),
            system_variables(*final(self)) == system_variables(*old(self)).push(
                allocated_value(system_in_setup(*old(self)), value),
            ),
            system_inputs(*final(self)) == system_inputs(*old(self)),
            system_witnesses(*final(self)) == system_witnesses(*old(self)).push(
                allocated_value(system_in_setup(*old(self)), value),
            ),
            system_constraints(*final(self)) == system_constraints(*old(self)),
            system_satisfied(*final(self)) == system_satisfied(*old(self)),
    {
        let index = self.variables.len();
        let scalar = value.map(|x| Fr::new(BigInt([x.l0, x.l1, x.l2, x.l3])));
        let offered = scalar.ok_or(SynthesisError::AssignmentMissing);
        let variable = FpVar::new_witness(ConstraintSystemRef::CS(self.inner.clone()), || offered);
        self.variables.push(variable.map_err(failure_of)?);
        Ok(index)
    }

    /// `+` on two `FpVar`s of the engine: a new variable that stands for the
    /// sum of two variables. Its value is the field sum of their values. No
    /// input, witness or constraint is added. The result names the new
    /// variable.
    #[verifier::external_body]
    pub(crate) fn add(&mut self, x: usize, y: usize) -> (r: usize)
        requires
            x < system_variables(*old(self)).len(),
            y < system_variables(*old(self)).len(),
        ensures
            r == system_variables(*old(self)).len(),
            system_in_setup(*final(self)) == system_in_setup(*old(self)),
            system_variables(*final(self)) == system_variables(*old(self)).push(
                sum_value(
                    system_variables(*old(self))[x as int],
                    system_variables(*old(self))[y as int],
                ),
            ),
            system_inputs(*final(self)) == system_inputs(*old(self)),
            system_witnesses(*final(self)) == system_witnesses(*old(self)),
            system_constraints(*final(self)) == system_constraints(*old(self)),
            system_satisfied(*final(self)) == system_satisfied(*old(self)),
    {
        let index = self.variables.len();
        let sum = &self.variables[x] + &self.variables[y];
        self.variables.push(sum);
        index
    }

    /// `EqGadget::enforce_equal` of the engine on two `FpVar`s: adds one
    /// constraint, which holds exactly if both variables have a value, and
    /// the same. Nothing else changes.
    #[verifier::external_body]
    pub(crate) fn enforce_equal(&mut self, x: usize, y: usize) -> (r: Result<(), SynthesisFailure>)
        requires
            x < system_variables(*old(self)).len(),
            y < system_variables(*old(self)).len(),
        ensures
            r is Ok,
            system_in_setup(*final(self)) == system_in_setup(*old(self)),
            system_variables(*final(self)) == system_variables(*old(self)),
            system_inputs(*final(self)) == system_inputs(*old(self)),
            system_witnesses(*final(self)) == system_witnesses(*old(self)),
            system_constraints(*final(self)) == system_constraints(*old(self)) + 1,
            system_satisfied(*final(self)) == (system_satisfied(*old(self)) && same_value(
                system_variables(*old(self))[x as int],
                system_variables(*old(self))[y as int],
            )),
    {
        self.variables[x].enforce_equal(&self.variables[y]).map_err(failure_of)
    }

    /// The counters `num_instance_variables`, `num_witness_variables` and
    /// `num_constraints` of the engine's system, in this order. The engine
    /// counts the constant one as the first of its instance variables.
    #[verifier::external_body]
    pub(crate) fn counters(&self) -> (r: (usize, usize, usize))
        ensures
            r.0 == system_inputs(*self).len() + 1,
            r.1 == system_witnesses(*self).len(),
            r.2 == system_constraints(*self),
    {
        let system = self.inner.borrow();
        (system.num_instance_variables, system.num_witness_variables, system.num_constraints)
    }

    /// How many inputs, witnesses and constraints the system has.
    pub fn shape(&self) -> (r: Shape)
        ensures
            r.inputs == system_inputs(*self).len(),
            r.witnesses == system_witnesses(*self).len(),
            r.constraints == system_constraints(*self),
    {
        let (instances, witnesses, constraints) = self.counters();
        Shape { inputs: instances - 1, witnesses, constraints }
    }
}

} // verus!
