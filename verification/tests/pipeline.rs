//! Key generation, proving and verification for both relations.

use ark_bn254::Fr;
use ark_ff::FftField;
use ark_relations::r1cs::{ConstraintSynthesizer, ConstraintSystemRef, SynthesisError};
use rand::rngs::StdRng;
use rand::SeedableRng;
use trivial_circuits::circuits::compare::CompareCircuit;
use trivial_circuits::circuits::field::{
    FieldElement, PrimeString, MODULUS_LIMB_0, MODULUS_LIMB_1, MODULUS_LIMB_2, MODULUS_LIMB_3,
};
use trivial_circuits::circuits::groth16::{
    generate_proof, outcome, setup, verify_proof, Bn254Proof, KeyShape, ProofError, ProvingKey,
    VerifyingKey, LARGEST_DOMAIN,
};
use trivial_circuits::circuits::sum::SumCircuit;
use trivial_circuits::circuits::system::{ConstraintSystem, Shape, SynthesisFailure};
use trivial_circuits::circuits::Circuit;

/// Hands the engine's system to the relation during key generation.
struct Synthesizer(Circuit);

fn engine_error(failure: SynthesisFailure) -> SynthesisError {
    match failure {
        SynthesisFailure::MissingCS => SynthesisError::MissingCS,
        SynthesisFailure::AssignmentMissing => SynthesisError::AssignmentMissing,
        SynthesisFailure::DivisionByZero => SynthesisError::DivisionByZero,
        SynthesisFailure::Unsatisfiable => SynthesisError::Unsatisfiable,
        SynthesisFailure::PolynomialDegreeTooLarge => SynthesisError::PolynomialDegreeTooLarge,
        SynthesisFailure::UnexpectedIdentity => SynthesisError::UnexpectedIdentity,
        SynthesisFailure::MalformedVerifyingKey => SynthesisError::MalformedVerifyingKey,
        SynthesisFailure::UnconstrainedVariable => SynthesisError::UnconstrainedVariable,
    }
}

impl ConstraintSynthesizer<Fr> for Synthesizer {
    fn generate_constraints(self, cs: ConstraintSystemRef<Fr>) -> Result<(), SynthesisError> {
        match cs {
            ConstraintSystemRef::CS(inner) => {
                let mut system = ConstraintSystem { inner, variables: Vec::new() };
                self.0.generate_constraints(&mut system).map_err(engine_error)
            }
            ConstraintSystemRef::None => Err(SynthesisError::MissingCS),
        }
    }
}

fn scalar(v: u64) -> Option<FieldElement> {
    Some(FieldElement::from_u64(v))
}

fn sum(a: u64, b: u64, c: u64) -> Circuit {
    Circuit::Sum(SumCircuit::new(scalar(a), scalar(b), scalar(c)))
}

fn prefix(shorter: &'static str, larger: &'static str) -> CompareCircuit {
    CompareCircuit {
        shorter: Some(Vec::from(PrimeString::from(shorter))),
        larger: Some(Vec::from(PrimeString::from(larger))),
    }
}

fn sum_keys(seed: u64) -> (ProvingKey, VerifyingKey, StdRng) {
    let mut rng = StdRng::seed_from_u64(seed);
    let (pk, vk) =
        setup(Synthesizer(Circuit::Sum(SumCircuit::default())), &mut rng).expect("keys created");
    (pk, vk, rng)
}

fn prefix_keys(length: usize, seed: u64) -> (ProvingKey, VerifyingKey, StdRng) {
    let mut rng = StdRng::seed_from_u64(seed);
    let shape = CompareCircuit {
        shorter: Some(vec![FieldElement::from_u64(0); length]),
        larger: Some(vec![FieldElement::from_u64(0); length]),
    };
    let (pk, vk) = setup(Synthesizer(Circuit::Compare(shape)), &mut rng).expect("keys created");
    (pk, vk, rng)
}

fn engine_text(r: Result<Bn254Proof, ProofError>) -> String {
    match r {
        Err(ProofError::EngineError(text)) => text,
        other => panic!("expected an engine error, got {:?}", other.map(|_| ())),
    }
}

#[test]
fn prove_verify_sum() {
    let mut rng = StdRng::seed_from_u64(1);
    let (pk, vk) =
        setup(Synthesizer(Circuit::Sum(SumCircuit::default())), &mut rng).expect("keys created");

    let proof = generate_proof(
        pk,
        Circuit::Sum(SumCircuit::new(Some(10.into()), Some(32.into()), Some(42.into()))),
        &mut rng,
    )
    .expect("proof created");

    let public_input = [42.into()];
    let verified = verify_proof(vk, &public_input, proof).expect("proof is verified");

    assert!(verified, "this can't be verified");
}

#[test]
fn prove_verify_starts_with() {
    let small = "abc";
    let large = "abcdef";
    let larger_array: PrimeString = large.into();
    let shorter_array: PrimeString = small.into();

    let circuit = CompareCircuit {
        larger: Some(larger_array.into()),
        shorter: Some(shorter_array.clone().into()),
    };

    let mut rng = StdRng::seed_from_u64(2);
    let (pk, vk) =
        setup(Synthesizer(Circuit::Compare(circuit.clone())), &mut rng).expect("keys created");
    let proof =
        generate_proof(pk, Circuit::Compare(circuit), &mut rng).expect("proof generated");
    let verified =
        verify_proof(vk, &Vec::<FieldElement>::from(shorter_array), proof).expect("verified");

    assert!(verified, "this can't be verified");
}

#[test]
fn bad_sum_gives_no_proof() {
    let (pk, _, mut rng) = sum_keys(3);
    let r = generate_proof(pk, sum(10, 31, 42), &mut rng);
    assert_eq!(r.err(), Some(ProofError::Unsatisfiable));
}

#[test]
fn keys_serve_many_sums() {
    let (pk, vk, mut rng) = sum_keys(5);
    for (a, b) in [(0u64, 0u64), (1, 2), (u64::MAX, u64::MAX), (7, 0)] {
        let c = FieldElement::from_limbs(a.wrapping_add(b), (a.checked_add(b).is_none()) as u64, 0, 0)
            .expect("below the order");
        let circuit = Circuit::Sum(SumCircuit::new(scalar(a), scalar(b), Some(c)));
        let proof = generate_proof(pk.clone(), circuit, &mut rng).expect("proof created");
        assert_eq!(verify_proof(vk.clone(), &[c], proof), Ok(true));
    }
}

#[test]
fn sum_wraps_around_the_order() {
    // (order - 1) + 2 = 1 in the field
    let a = FieldElement::from_limbs(
        MODULUS_LIMB_0 - 1,
        MODULUS_LIMB_1,
        MODULUS_LIMB_2,
        MODULUS_LIMB_3,
    )
    .expect("below the order");
    let (pk, vk, mut rng) = sum_keys(6);
    let circuit = Circuit::Sum(SumCircuit::new(Some(a), scalar(2), scalar(1)));
    let proof = generate_proof(pk.clone(), circuit, &mut rng).expect("proof created");
    assert_eq!(verify_proof(vk, &[FieldElement::from_u64(1)], proof), Ok(true));

    // and it is not order + 1, which no scalar is, nor anything else
    let wrong = Circuit::Sum(SumCircuit::new(Some(a), scalar(2), scalar(3)));
    assert_eq!(generate_proof(pk, wrong, &mut rng).err(), Some(ProofError::Unsatisfiable));
}

#[test]
fn proof_of_one_sum_does_not_verify_for_another() {
    let (pk, vk, mut rng) = sum_keys(7);
    let proof = generate_proof(pk, sum(10, 32, 42), &mut rng).expect("proof created");
    assert_eq!(verify_proof(vk.clone(), &[FieldElement::from_u64(42)], proof.clone()), Ok(true));
    assert_eq!(verify_proof(vk, &[FieldElement::from_u64(43)], proof), Ok(false));
}

#[test]
fn unassigned_sum_gives_keys_but_no_proof() {
    let (pk, _, mut rng) = sum_keys(8);
    for circuit in [
        SumCircuit::new(None, scalar(32), scalar(42)),
        SumCircuit::new(scalar(10), None, scalar(42)),
        SumCircuit::new(scalar(10), scalar(32), None),
        SumCircuit::default(),
    ] {
        let r = generate_proof(pk.clone(), Circuit::Sum(circuit), &mut rng);
        assert_eq!(r.err(), Some(ProofError::AssignmentMissing));
    }
}

#[test]
fn shorter_longer_than_larger_is_unsatisfiable() {
    let circuit = prefix("abc", "ab");
    let mut rng = StdRng::seed_from_u64(9);
    let keys = setup(Synthesizer(Circuit::Compare(circuit.clone())), &mut rng);
    assert_eq!(keys.err(), Some(SynthesisFailure::Unsatisfiable));

    let (pk, _, mut rng) = prefix_keys(3, 9);
    let r = generate_proof(pk, Circuit::Compare(circuit), &mut rng);
    assert_eq!(r.err(), Some(ProofError::Unsatisfiable));
}

#[test]
fn string_that_is_no_prefix_gives_no_proof() {
    let (pk, _, mut rng) = prefix_keys(3, 10);
    for (shorter, larger) in [("abd", "abcdef"), ("bcd", "abcdef"), ("abc", "xbc"), ("abc", "abC")]
    {
        let r = generate_proof(pk.clone(), Circuit::Compare(prefix(shorter, larger)), &mut rng);
        assert_eq!(r.err(), Some(ProofError::Unsatisfiable));
    }
}

#[test]
fn string_is_a_prefix_of_itself() {
    let (pk, vk, mut rng) = prefix_keys(3, 11);
    let proof = generate_proof(pk, Circuit::Compare(prefix("abc", "abc")), &mut rng)
        .expect("proof generated");
    let inputs = Vec::from(PrimeString::from("abc"));
    assert_eq!(verify_proof(vk, &inputs, proof), Ok(true));
}

#[test]
fn prefix_proof_does_not_verify_for_another_string() {
    let (pk, vk, mut rng) = prefix_keys(3, 12);
    let proof = generate_proof(pk, Circuit::Compare(prefix("abc", "abcdef")), &mut rng)
        .expect("proof generated");
    let other = Vec::from(PrimeString::from("abd"));
    assert_eq!(verify_proof(vk.clone(), &other, proof.clone()), Ok(false));
    // nor in another order
    let swapped = Vec::from(PrimeString::from("cba"));
    assert_eq!(verify_proof(vk, &swapped, proof), Ok(false));
}

#[test]
fn empty_prefix_is_proved() {
    let mut rng = StdRng::seed_from_u64(4);
    let circuit = prefix("", "abc");
    let (pk, vk) =
        setup(Synthesizer(Circuit::Compare(circuit.clone())), &mut rng).expect("keys created");
    let proof = generate_proof(pk, Circuit::Compare(circuit), &mut rng).expect("proof generated");
    let verified = verify_proof(vk, &[], proof).expect("verified");
    assert!(verified);
}

#[test]
fn unassigned_prefix_gives_neither_keys_nor_proof() {
    let mut rng = StdRng::seed_from_u64(13);
    let keys = setup(Synthesizer(Circuit::Compare(CompareCircuit::default())), &mut rng);
    assert_eq!(keys.err(), Some(SynthesisFailure::AssignmentMissing));
    assert_eq!(
        outcome(setup(Synthesizer(Circuit::Compare(CompareCircuit::default())), &mut rng)).err(),
        Some(ProofError::AssignmentMissing)
    );

    let (pk, _, mut rng) = prefix_keys(3, 13);
    let half = CompareCircuit { shorter: prefix("abc", "abc").shorter, larger: None };
    let r = generate_proof(pk, Circuit::Compare(half), &mut rng);
    assert_eq!(r.err(), Some(ProofError::AssignmentMissing));
}

#[test]
fn key_of_another_shape_is_refused() {
    let (sum_key, _, mut rng) = sum_keys(14);
    let text = engine_text(generate_proof(
        sum_key.clone(),
        Circuit::Compare(prefix("abc", "abcdef")),
        &mut rng,
    ));
    assert_eq!(text, "the proving key does not fit the relation");

    let (prefix_key, _, mut rng) = prefix_keys(3, 14);
    let text = engine_text(generate_proof(prefix_key.clone(), sum(10, 32, 42), &mut rng));
    assert_eq!(text, "the proving key does not fit the relation");

    // prefixes of different lengths have different shapes
    let text = engine_text(generate_proof(
        prefix_key,
        Circuit::Compare(prefix("ab", "abcdef")),
        &mut rng,
    ));
    assert_eq!(text, "the proving key does not fit the relation");
}

#[test]
fn wrong_number_of_public_inputs_is_an_error() {
    let (pk, vk, mut rng) = sum_keys(15);
    let proof = generate_proof(pk, sum(10, 32, 42), &mut rng).expect("proof created");
    let r = verify_proof(vk.clone(), &[], proof.clone());
    assert_eq!(r, Err(ProofError::EngineError("malformed verifying key".to_string())));
    let two = [FieldElement::from_u64(42), FieldElement::from_u64(42)];
    let r = verify_proof(vk, &two, proof);
    assert_eq!(r, Err(ProofError::EngineError("malformed verifying key".to_string())));
}

#[test]
fn public_inputs_are_in_allocation_order() {
    let c = FieldElement::from_u64(42);
    let circuit = Circuit::Sum(SumCircuit::new(scalar(10), scalar(32), Some(c)));
    assert_eq!(circuit.public_input(), Some(vec![c]));
    assert_eq!(Circuit::Sum(SumCircuit::default()).public_input(), None);

    let circuit = Circuit::Compare(prefix("abc", "abcdef"));
    assert_eq!(circuit.public_input(), Some(Vec::from(PrimeString::from("abc"))));
    assert_eq!(Circuit::Compare(CompareCircuit::default()).public_input(), None);

    // what the relation names as its public inputs is what verification takes
    let (pk, vk, mut rng) = prefix_keys(3, 16);
    let inputs = circuit.public_input().expect("assigned");
    let proof = generate_proof(pk, circuit, &mut rng).expect("proof generated");
    assert_eq!(verify_proof(vk, &inputs, proof), Ok(true));
}

#[test]
fn error_texts_are_the_engines() {
    assert_eq!(
        ProofError::AssignmentMissing.message(),
        "an assignment for a variable could not be computed"
    );
    assert_eq!(ProofError::Unsatisfiable.message(), "unsatisfiable constraint system");
    assert_eq!(
        ProofError::from_failure(SynthesisFailure::PolynomialDegreeTooLarge),
        ProofError::EngineError("polynomial degree is too large".to_string())
    );
    assert_eq!(
        ProofError::from_failure(SynthesisFailure::AssignmentMissing),
        ProofError::AssignmentMissing
    );
    assert_eq!(
        ProofError::from_failure(SynthesisFailure::Unsatisfiable),
        ProofError::Unsatisfiable
    );
    assert_eq!(ProofError::SerializationError("x".to_string()).message(), "x");
    assert_eq!(ProofError::EngineError("y".to_string()).message(), "y");
}

#[test]
fn every_other_failure_is_an_engine_error_with_its_text() {
    for (failure, text) in [
        (SynthesisFailure::MissingCS, "the constraint system was `None`"),
        (SynthesisFailure::DivisionByZero, "division by zero"),
        (SynthesisFailure::PolynomialDegreeTooLarge, "polynomial degree is too large"),
        (SynthesisFailure::UnexpectedIdentity, "encountered an identity element in the CRS"),
        (SynthesisFailure::MalformedVerifyingKey, "malformed verifying key"),
        (SynthesisFailure::UnconstrainedVariable, "auxiliary variable was unconstrained"),
    ] {
        assert_eq!(ProofError::from_failure(failure), ProofError::EngineError(text.to_string()));
        assert_eq!(outcome::<u8>(Err(failure)), Err(ProofError::EngineError(text.to_string())));
        assert_eq!(engine_error(failure).to_string(), text);
    }
    assert_eq!(outcome(Ok::<u8, SynthesisFailure>(7)), Ok(7));
    assert_eq!(outcome::<u8>(Err(SynthesisFailure::Unsatisfiable)), Err(ProofError::Unsatisfiable));
}

#[test]
fn key_fits_one_shape() {
    let sum = Shape { inputs: 1, witnesses: 2, constraints: 1 };
    let key = KeyShape { inputs: 2, a_query: 4, b_g1_query: 4, b_g2_query: 4, l_query: 2 };
    assert!(key.fits_shape(&sum));
    // the number of constraints is not looked at
    assert!(key.fits_shape(&Shape { inputs: 1, witnesses: 2, constraints: 9 }));
    assert!(!key.fits_shape(&Shape { inputs: 2, witnesses: 2, constraints: 2 }));
    assert!(!key.fits_shape(&Shape { inputs: 1, witnesses: 1, constraints: 1 }));
    assert!(!key.fits_shape(&Shape { inputs: 0, witnesses: 3, constraints: 1 }));
    for spoiled in [
        KeyShape { inputs: 1, ..key },
        KeyShape { a_query: 3, ..key },
        KeyShape { b_g1_query: 5, ..key },
        KeyShape { b_g2_query: 0, ..key },
        KeyShape { l_query: 3, ..key },
    ] {
        assert!(!spoiled.fits_shape(&sum));
    }
    let empty = KeyShape { inputs: 1, a_query: 1, b_g1_query: 1, b_g2_query: 1, l_query: 0 };
    assert!(empty.fits_shape(&Shape { inputs: 0, witnesses: 0, constraints: 0 }));
    // counts beyond the machine's integers fit no key
    let huge = KeyShape { inputs: 0, a_query: 0, b_g1_query: 0, b_g2_query: 0, l_query: 0 };
    assert!(!huge.fits_shape(&Shape { inputs: usize::MAX, witnesses: 0, constraints: 0 }));
    let wide = KeyShape { inputs: 2, a_query: 1, b_g1_query: 1, b_g2_query: 1, l_query: usize::MAX };
    assert!(!wide.fits_shape(&Shape { inputs: 1, witnesses: usize::MAX, constraints: 0 }));
}

#[test]
fn each_proof_draws_its_own_randomness() {
    let (pk, vk, mut rng) = sum_keys(17);
    let first = generate_proof(pk.clone(), sum(10, 32, 42), &mut rng).expect("proof created");
    let second = generate_proof(pk, sum(10, 32, 42), &mut rng).expect("proof created");
    assert_ne!(first, second);
    let c = [FieldElement::from_u64(42)];
    assert_eq!(verify_proof(vk.clone(), &c, first), Ok(true));
    assert_eq!(verify_proof(vk, &c, second), Ok(true));
}

#[test]
fn largest_domain_is_the_fields() {
    assert_eq!(Fr::TWO_ADICITY, 28);
    assert_eq!(LARGEST_DOMAIN, 1 << Fr::TWO_ADICITY);
    assert_eq!(Fr::SMALL_SUBGROUP_BASE, None);
}

#[test]
fn key_tells_its_shape() {
    let (pk, _, _) = sum_keys(18);
    let shape = pk.shape();
    assert_eq!(shape, KeyShape { inputs: 2, a_query: 4, b_g1_query: 4, b_g2_query: 4, l_query: 2 });
    assert!(shape.fits_shape(&Shape { inputs: 1, witnesses: 2, constraints: 1 }));
    assert!(!shape.fits_shape(&Shape { inputs: 3, witnesses: 3, constraints: 3 }));

    let (pk, _, _) = prefix_keys(3, 18);
    let shape = pk.shape();
    assert_eq!(shape, KeyShape { inputs: 4, a_query: 7, b_g1_query: 7, b_g2_query: 7, l_query: 3 });
    assert!(shape.fits_shape(&Shape { inputs: 3, witnesses: 3, constraints: 3 }));
    assert!(!shape.fits_shape(&Shape { inputs: 1, witnesses: 2, constraints: 1 }));
}

#[test]
fn true_relation_under_a_fitting_key_gets_a_proof() {
    let (pk, _, mut rng) = sum_keys(19);
    for (a, b) in [(0u64, 0u64), (10, 32), (u64::MAX, 1), (5, u64::MAX)] {
        let c = FieldElement::from_limbs(a.wrapping_add(b), (a.checked_add(b).is_none()) as u64, 0, 0)
            .expect("below the order");
        let circuit = Circuit::Sum(SumCircuit::new(scalar(a), scalar(b), Some(c)));
        assert!(generate_proof(pk.clone(), circuit, &mut rng).is_ok());
    }
    for length in [0usize, 1, 5] {
        let (pk, _, mut rng) = prefix_keys(length, 19);
        let larger = "abcdefgh";
        let circuit = CompareCircuit {
            shorter: Some(Vec::from(PrimeString::from(larger))[..length].to_vec()),
            larger: Some(Vec::from(PrimeString::from(larger))),
        };
        assert!(generate_proof(pk, Circuit::Compare(circuit), &mut rng).is_ok());
    }
}
