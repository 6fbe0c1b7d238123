//! Keys, proofs, their canonical bytes, and the proving pipeline around the
//! Groth16 engine: key generation, proving and verification.
//!
//! The keys and proofs are the engine's and are carried as they are. What is
//! known of them here is what the engine's functions are trusted to do.
use crate::circuits::compare::{starts_with, CompareCircuit};
use crate::circuits::field::{encoding, field_add, values, FieldElement};
use crate::circuits::sum::SumCircuit;
use crate::circuits::system::{
    failure_of, system_assigned, system_constraints, system_inputs, system_satisfied,
    system_witnesses, ConstraintSystem, Shape, SynthesisFailure,
};
use crate::circuits::Circuit;
use ark_bn254::{Bn254, Fr};
use ark_ff::{BigInt, UniformRand};
use ark_groth16::Groth16;
use ark_relations::r1cs::{ConstraintSynthesizer, SynthesisError};
use ark_serialize::{CanonicalDeserialize, CanonicalSerialize};
use ark_snark::SNARK;
use rand::rngs::StdRng;
use vstd::prelude::*;

verus! {

/// The standard seedable generator of `rand`, the source of randomness for
/// key generation and proving.
#[verifier::external_type_specification]
#[verifier::external_body]
pub struct ExStdRng(StdRng);

/// A Groth16 proving key over BN254, as the engine made it: by key
/// generation or by reading canonical bytes.
#[verifier::external_body]
#[derive(Debug, PartialEq)]
pub struct ProvingKey(ark_groth16::ProvingKey<Bn254>);

/// A Groth16 verifying key over BN254, as the engine made it: by key
/// generation or by reading canonical bytes.
#[verifier::external_body]
#[derive(Debug, PartialEq)]
pub struct VerifyingKey(ark_groth16::VerifyingKey<Bn254>);

/// A Groth16 proof over BN254, as the engine made it: by proving or by
/// reading canonical bytes.
#[verifier::external_body]
#[derive(Debug, PartialEq)]
pub struct Bn254Proof(ark_groth16::Proof<Bn254>);

impl Clone for ProvingKey {
    /// `clone` of the engine's proving key: a key equal to this one.
    #[verifier::external_body]
    fn clone(&self) -> (r: Self)
        ensures
            r == *self,
    {
        ProvingKey(self.0.clone())
    }
}

impl Clone for VerifyingKey {
    /// `clone` of the engine's verifying key: a key equal to this one.
    #[verifier::external_body]
    fn clone(&self) -> (r: Self)
        ensures
            r == *self,
    {
        VerifyingKey(self.0.clone())
    }
}

impl Clone for Bn254Proof {
    /// `clone` of the engine's proof: a proof equal to this one.
    #[verifier::external_body]
    fn clone(&self) -> (r: Self)
        ensures
            r == *self,
    {
        Bn254Proof(self.0.clone())
    }
}

/// The number of canonical uncompressed bytes of a proof.
pub const PROOF_LENGTH: usize = 256;

/// The lengths of the vectors of group elements in a proving key.
#[derive(Clone, Copy, Debug, PartialEq, Eq, Structural)]
pub struct KeyShape {
    /// Elements for the public inputs, the constant one among them
    /// (`vk.gamma_abc_g1`).
    pub inputs: usize,
    /// Elements of the first query (`a_query`).
    pub a_query: usize,
    /// Elements of the second query in the first group (`b_g1_query`).
    pub b_g1_query: usize,
    /// Elements of the second query in the second group (`b_g2_query`).
    pub b_g2_query: usize,
    /// Elements for the private witnesses (`l_query`).
    pub l_query: usize,
}

impl KeyShape {
    /// Whether a key of these lengths was made for systems of the given
    /// numbers of inputs and witnesses: one element for each input and for
    /// the constant one, one element of each query for each variable and for
    /// the constant one, one element for each witness. The elements that go
    /// with the number of constraints (`h_query`) are not looked at.
    pub open spec fn fits(&self, inputs: nat, witnesses: nat) -> bool {
        &&& self.inputs == inputs + 1
        &&& self.a_query == inputs + witnesses + 1
        &&& self.b_g1_query == inputs + witnesses + 1
        &&& self.b_g2_query == inputs + witnesses + 1
        &&& self.l_query == witnesses
    }

    /// Whether a key of these lengths was made for systems of the given
    /// shape.
    pub fn fits_shape(&self, shape: &Shape) -> (r: bool)
        ensures
            r == self.fits(shape.inputs as nat, shape.witnesses as nat),
    {
        if shape.inputs == usize::MAX || self.inputs != shape.inputs + 1 {
            return false;
        }
        match self.inputs.checked_add(shape.witnesses) {
            Some(variables) => self.a_query == variables && self.b_g1_query == variables
                && self.b_g2_query == variables && self.l_query == shape.witnesses,
            None => false,
        }
    }
}

/// A key fits one shape at most: keys made for relations with different
/// numbers of inputs or witnesses cannot stand in for each other. So every
/// length of the public string has keys of its own, and none of them serves
/// the sum relation.
pub proof fn lemma_key_fits_one_shape(
    key: KeyShape,
    inputs: nat,
    witnesses: nat,
    other_inputs: nat,
    other_witnesses: nat,
)
    requires
        key.fits(inputs, witnesses),
        key.fits(other_inputs, other_witnesses),
    ensures
        inputs == other_inputs,
        witnesses == other_witnesses,
{
}

/// The lengths of the vectors in the proving key.
pub uninterp spec fn proving_key_shape(key: ProvingKey) -> KeyShape;

/// The number of public inputs that the verifying key takes, the constant
/// one among them.
pub uninterp spec fn verifying_key_inputs(key: VerifyingKey) -> nat;

/// What the engine's verifier answers for the proof and the public inputs
/// under the key.
pub uninterp spec fn groth16_verdict(key: VerifyingKey, inputs: Seq<nat>, proof: Bn254Proof) -> Result<bool, SynthesisFailure>;

/// Whether the engine accepts the proof for the public inputs under the key.
pub open spec fn groth16_accepts(key: VerifyingKey, inputs: Seq<nat>, proof: Bn254Proof) -> bool {
    groth16_verdict(key, inputs, proof) == Ok::<bool, SynthesisFailure>(true)
}

/// The text that the engine gives for a failure.
pub open spec fn synthesis_message(kind: SynthesisFailure) -> Seq<char> {
    match kind {
        SynthesisFailure::MissingCS => "the constraint system was `None`"@,
        SynthesisFailure::AssignmentMissing => "an assignment for a variable could not be computed"@,
        SynthesisFailure::DivisionByZero => "division by zero"@,
        SynthesisFailure::Unsatisfiable => "unsatisfiable constraint system"@,
        SynthesisFailure::PolynomialDegreeTooLarge => "polynomial degree is too large"@,
        SynthesisFailure::UnexpectedIdentity => "encountered an identity element in the CRS"@,
        SynthesisFailure::MalformedVerifyingKey => "malformed verifying key"@,
        SynthesisFailure::UnconstrainedVariable => "auxiliary variable was unconstrained"@,
    }
}

/// The canonical uncompressed bytes of a proving key, if the engine's
/// serializer gives any.
pub uninterp spec fn proving_key_bytes(key: ProvingKey) -> Option<Seq<u8>>;

/// The canonical uncompressed bytes of a verifying key, if the engine's
/// serializer gives any.
pub uninterp spec fn verifying_key_bytes(key: VerifyingKey) -> Option<Seq<u8>>;

/// The canonical uncompressed bytes of a proof, if the engine's serializer
/// gives any.
pub uninterp spec fn proof_bytes(proof: Bn254Proof) -> Option<Seq<u8>>;

/// The proving key that the engine's deserializer reads from the bytes, if
/// it reads one.
pub uninterp spec fn proving_key_from(bytes: Seq<u8>) -> Option<ProvingKey>;

/// The verifying key that the engine's deserializer reads from the bytes, if
/// it reads one.
pub uninterp spec fn verifying_key_from(bytes: Seq<u8>) -> Option<VerifyingKey>;

/// The proof that the engine's deserializer reads from the bytes, if it
/// reads one.
pub uninterp spec fn proof_from(bytes: Seq<u8>) -> Option<Bn254Proof>;

/// The text of the codec's error where the engine's deserializer reads no
/// proving key from the bytes.
pub uninterp spec fn proving_key_refusal(bytes: Seq<u8>) -> Seq<char>;

/// The text of the codec's error where the engine's deserializer reads no
/// verifying key from the bytes.
pub uninterp spec fn verifying_key_refusal(bytes: Seq<u8>) -> Seq<char>;

/// The text of the codec's error where the engine's deserializer reads no
/// proof from the bytes.
pub uninterp spec fn proof_refusal(bytes: Seq<u8>) -> Seq<char>;

/// What went wrong, as mathematics: the kind, and the text where the kind
/// carries one.
pub enum ProofErrorView {
    /// A value that had to be known was not assigned.
    AssignmentMissing,
    /// The relation does not hold, or cannot hold, of its assignment.
    Unsatisfiable,
    /// The engine failed, with its text.
    EngineError(Seq<char>),
    /// Bytes could not be read or written, with the codec's text.
    SerializationError(Seq<char>),
}

/// What went wrong in the pipeline.
#[derive(Clone, Debug, PartialEq, Eq)]
pub enum ProofError {
    /// A private or public value was unassigned when the relation was
    /// written into a constraint system.
    AssignmentMissing,
    /// The relation does not hold of its assignment: the shorter string is
    /// longer than the larger one, or the constraints are not satisfied.
    Unsatisfiable,
    /// The engine reported a failure during key generation, proving or
    /// verification; this is its text.
    EngineError(String),
    /// Bytes of a key or a proof could not be read or written; this is the
    /// codec's text.
    SerializationError(String),
}

impl View for ProofError {
    type V = ProofErrorView;

    open spec fn view(&self) -> ProofErrorView {
        match self {
            ProofError::AssignmentMissing => ProofErrorView::AssignmentMissing,
            ProofError::Unsatisfiable => ProofErrorView::Unsatisfiable,
            ProofError::EngineError(text) => ProofErrorView::EngineError(text@),
            ProofError::SerializationError(text) => ProofErrorView::SerializationError(text@),
        }
    }
}

/// The error that a failure of synthesis or of the engine becomes: the two
/// kinds that a relation itself reports stay what they are, every other one
/// is an engine error with the engine's text.
pub open spec fn failure_view(kind: SynthesisFailure) -> ProofErrorView {
    match kind {
        SynthesisFailure::AssignmentMissing => ProofErrorView::AssignmentMissing,
        SynthesisFailure::Unsatisfiable => ProofErrorView::Unsatisfiable,
        _ => ProofErrorView::EngineError(synthesis_message(kind)),
    }
}

/// The text of the error for a proving key that was made for another
/// relation.
pub open spec fn key_mismatch_message() -> Seq<char> {
    "the proving key does not fit the relation"@
}

/// `to_string` of the engine's `SynthesisError`: the text for each failure.
#[verifier::external_body]
fn failure_text(kind: SynthesisFailure) -> (r: String)
    ensures
        r@ == synthesis_message(kind),
{
    let error = match kind {
        SynthesisFailure::MissingCS => SynthesisError::MissingCS,
        SynthesisFailure::AssignmentMissing => SynthesisError::AssignmentMissing,
        SynthesisFailure::DivisionByZero => SynthesisError::DivisionByZero,
        SynthesisFailure::Unsatisfiable => SynthesisError::Unsatisfiable,
        SynthesisFailure::PolynomialDegreeTooLarge => SynthesisError::PolynomialDegreeTooLarge,
        SynthesisFailure::UnexpectedIdentity => SynthesisError::UnexpectedIdentity,
        SynthesisFailure::MalformedVerifyingKey => SynthesisError::MalformedVerifyingKey,
        SynthesisFailure::UnconstrainedVariable => SynthesisError::UnconstrainedVariable,
    };
    error.to_string()
}

impl ProofError {
    /// The error that a failure of synthesis or of the engine becomes.
    pub fn from_failure(kind: SynthesisFailure) -> (r: ProofError)
        ensures
            r@ == failure_view(kind),
    {
        match kind {
            SynthesisFailure::AssignmentMissing => ProofError::AssignmentMissing,
            SynthesisFailure::Unsatisfiable => ProofError::Unsatisfiable,
            _ => ProofError::EngineError(failure_text(kind)),
        }
    }

    /// The text of the error.
    pub fn message(&self) -> (r: String)
        ensures
            r@ == (match self@ {
                ProofErrorView::AssignmentMissing => synthesis_message(
                    SynthesisFailure::AssignmentMissing,
                ),
                ProofErrorView::Unsatisfiable => synthesis_message(SynthesisFailure::Unsatisfiable),
                ProofErrorView::EngineError(text) => text,
                ProofErrorView::SerializationError(text) => text,
            }),
    {
        match self {
            ProofError::AssignmentMissing => failure_text(SynthesisFailure::AssignmentMissing),
            ProofError::Unsatisfiable => failure_text(SynthesisFailure::Unsatisfiable),
            ProofError::EngineError(text) => text.clone(),
            ProofError::SerializationError(text) => text.clone(),
        }
    }
}

/// What a result of the engine becomes for the caller: a value stays, a
/// failure becomes the error that `ProofError::from_failure` gives.
pub fn outcome<T>(result: Result<T, SynthesisFailure>) -> (r: Result<T, ProofError>)
    ensures
        match result {
            Ok(value) => r == Ok::<T, ProofError>(value),
            Err(kind) => r matches Err(e) && e@ == failure_view(kind),
        },
{
    match result {
        Ok(value) => Ok(value),
        Err(kind) => Err(ProofError::from_failure(kind)),
    }
}

/// A value that has canonical bytes: a proving key, a verifying key or a
/// proof.
pub trait TrySerializer: Sized {
    /// The canonical uncompressed bytes of the value, if the codec gives any.
    spec fn encoding(&self) -> Option<Seq<u8>>;

    /// The value that the codec reads from the bytes, if it reads one.
    spec fn decoding(bytes: Seq<u8>) -> Option<Self>;

    /// The text of the codec's error where it reads no value from the bytes.
    spec fn refusal_text(bytes: Seq<u8>) -> Seq<char>;

    /// The canonical uncompressed bytes of the value. Reading them back gives
    /// the value again.
    fn try_to_bytes(&self) -> (r: Result<Vec<u8>, ProofError>)
        ensures
            match r {
                Ok(bytes) => self.encoding() == Some(bytes@) && Self::decoding(bytes@) == Some(
                    *self,
                ),
                Err(e) => self.encoding() is None && e@ is SerializationError,
            },
    ;

    /// The value that the bytes stand for. Bytes that the codec does not
    /// accept, the empty sequence among them, give no value but a
    /// serialization error with the codec's text, which is never empty.
    fn try_from_bytes(bytes: &[u8]) -> (r: Result<Self, ProofError>)
        ensures
            match r {
                Ok(value) => Self::decoding(bytes@) == Some(value),
                Err(e) => Self::decoding(bytes@) is None && e@
                    == ProofErrorView::SerializationError(Self::refusal_text(bytes@))
                    && Self::refusal_text(bytes@).len() > 0,
            },
            bytes@.len() == 0 ==> r is Err,
    ;
}

/// `serialize_uncompressed` of the engine on a proving key, into a new vector, with
/// the text of the codec's error. Writing into a vector does not fail. The
/// bytes are a function of the value, and `deserialize_uncompressed` reads
/// the value back from them.
#[verifier::external_body]
fn write_proving_key(key: &ProvingKey) -> (r: Result<Vec<u8>, String>)
    ensures
        r is Ok,
        match r {
            Ok(bytes) => proving_key_bytes(*key) == Some(bytes@) && proving_key_from(bytes@) == Some(*key),
            Err(_) => proving_key_bytes(*key) is None,
        },
{
    let mut bytes = Vec::<u8>::new();
    key.0.serialize_uncompressed(&mut bytes).map_err(|e| e.to_string())?;
    Ok(bytes)
}

/// `serialize_uncompressed` of the engine on a verifying key, into a new vector, with
/// the text of the codec's error. Writing into a vector does not fail. The
/// bytes are a function of the value, and `deserialize_uncompressed` reads
/// the value back from them.
#[verifier::external_body]
fn write_verifying_key(key: &VerifyingKey) -> (r: Result<Vec<u8>, String>)
    ensures
        r is Ok,
        match r {
            Ok(bytes) => verifying_key_bytes(*key) == Some(bytes@) && verifying_key_from(bytes@) == Some(*key),
            Err(_) => verifying_key_bytes(*key) is None,
        },
{
    let mut bytes = Vec::<u8>::new();
    key.0.serialize_uncompressed(&mut bytes).map_err(|e| e.to_string())?;
    Ok(bytes)
}

/// `serialize_uncompressed` of the engine on a proof, into a new vector, with
/// the text of the codec's error. Writing into a vector does not fail. The
/// bytes are a function of the value, and `deserialize_uncompressed` reads
/// the value back from them.
/// A proof is two points of the first group and one of the second: 64, 128
/// and 64 bytes.
#[verifier::external_body]
fn write_proof(proof: &Bn254Proof) -> (r: Result<Vec<u8>, String>)
    ensures
        r is Ok,
        r matches Ok(bytes) ==> bytes@.len() == PROOF_LENGTH,
        match r {
            Ok(bytes) => proof_bytes(*proof) == Some(bytes@) && proof_from(bytes@) == Some(*proof),
            Err(_) => proof_bytes(*proof) is None,
        },
{
    let mut bytes = Vec::<u8>::new();
    proof.0.serialize_uncompressed(&mut bytes).map_err(|e| e.to_string())?;
    Ok(bytes)
}

/// `deserialize_uncompressed` of the engine for a proving key, which checks what it
/// reads, with the text of the codec's error. What it reads, and the text
/// where it reads nothing, are functions of the bytes. It reads nothing from
/// no bytes, and each of the codec's texts has letters.
#[verifier::external_body]
fn read_proving_key(bytes: &[u8]) -> (r: Result<ProvingKey, String>)
    ensures
        match r {
            Ok(value) => proving_key_from(bytes@) == Some(value),
            Err(text) => proving_key_from(bytes@) is None && text@ == proving_key_refusal(bytes@),
        },
        r matches Err(text) ==> text@.len() > 0,
        bytes@.len() == 0 ==> r is Err,
{
    ark_groth16::ProvingKey::<Bn254>::deserialize_uncompressed(bytes).map(ProvingKey).map_err(
        |e| e.to_string(),
    )
}

/// `deserialize_uncompressed` of the engine for a verifying key, which checks what it
/// reads, with the text of the codec's error. What it reads, and the text
/// where it reads nothing, are functions of the bytes. It reads nothing from
/// no bytes, and each of the codec's texts has letters.
#[verifier::external_body]
fn read_verifying_key(bytes: &[u8]) -> (r: Result<VerifyingKey, String>)
    ensures
        match r {
            Ok(value) => verifying_key_from(bytes@) == Some(value),
            Err(text) => verifying_key_from(bytes@) is None && text@ == verifying_key_refusal(bytes@),
        },
        r matches Err(text) ==> text@.len() > 0,
        bytes@.len() == 0 ==> r is Err,
{
    ark_groth16::VerifyingKey::<Bn254>::deserialize_uncompressed(bytes).map(VerifyingKey).map_err(
        |e| e.to_string(),
    )
}

/// `deserialize_uncompressed` of the engine for a proof, which checks what it
/// reads, with the text of the codec's error. What it reads, and the text
/// where it reads nothing, are functions of the bytes. It reads nothing from
/// no bytes, and each of the codec's texts has letters.
#[verifier::external_body]
fn read_proof(bytes: &[u8]) -> (r: Result<Bn254Proof, String>)
    ensures
        match r {
            Ok(value) => proof_from(bytes@) == Some(value),
            Err(text) => proof_from(bytes@) is None && text@ == proof_refusal(bytes@),
        },
        r matches Err(text) ==> text@.len() > 0,
        bytes@.len() == 0 ==> r is Err,
{
    ark_groth16::Proof::<Bn254>::deserialize_uncompressed(bytes).map(Bn254Proof).map_err(
        |e| e.to_string(),
    )
}

impl TrySerializer for ProvingKey {
    open spec fn encoding(&self) -> Option<Seq<u8>> {
        proving_key_bytes(*self)
    }

    open spec fn decoding(bytes: Seq<u8>) -> Option<Self> {
        proving_key_from(bytes)
    }

    open spec fn refusal_text(bytes: Seq<u8>) -> Seq<char> {
        proving_key_refusal(bytes)
    }

    fn try_to_bytes(&self) -> (r: Result<Vec<u8>, ProofError>)
        ensures
            r is Ok,
    {
        match write_proving_key(self) {
            Ok(bytes) => Ok(bytes),
            Err(text) => Err(ProofError::SerializationError(text)),
        }
    }

    fn try_from_bytes(bytes: &[u8]) -> (r: Result<Self, ProofError>) {
        match read_proving_key(bytes) {
            Ok(value) => Ok(value),
            Err(text) => Err(ProofError::SerializationError(text)),
        }
    }
}

impl TrySerializer for VerifyingKey {
    open spec fn encoding(&self) -> Option<Seq<u8>> {
        verifying_key_bytes(*self)
    }

    open spec fn decoding(bytes: Seq<u8>) -> Option<Self> {
        verifying_key_from(bytes)
    }

    open spec fn refusal_text(bytes: Seq<u8>) -> Seq<char> {
        verifying_key_refusal(bytes)
    }

    fn try_to_bytes(&self) -> (r: Result<Vec<u8>, ProofError>)
        ensures
            r is Ok,
    {
        match write_verifying_key(self) {
            Ok(bytes) => Ok(bytes),
            Err(text) => Err(ProofError::SerializationError(text)),
        }
    }

    fn try_from_bytes(bytes: &[u8]) -> (r: Result<Self, ProofError>) {
        match read_verifying_key(bytes) {
            Ok(value) => Ok(value),
            Err(text) => Err(ProofError::SerializationError(text)),
        }
    }
}

impl TrySerializer for Bn254Proof {
    open spec fn encoding(&self) -> Option<Seq<u8>> {
        proof_bytes(*self)
    }

    open spec fn decoding(bytes: Seq<u8>) -> Option<Self> {
        proof_from(bytes)
    }

    open spec fn refusal_text(bytes: Seq<u8>) -> Seq<char> {
        proof_refusal(bytes)
    }

    fn try_to_bytes(&self) -> (r: Result<Vec<u8>, ProofError>)
        ensures
            r is Ok,
            r matches Ok(bytes) ==> bytes@.len() == PROOF_LENGTH,
    {
        match write_proof(self) {
            Ok(bytes) => Ok(bytes),
            Err(text) => Err(ProofError::SerializationError(text)),
        }
    }

    fn try_from_bytes(bytes: &[u8]) -> (r: Result<Self, ProofError>) {
        match read_proof(bytes) {
            Ok(value) => Ok(value),
            Err(text) => Err(ProofError::SerializationError(text)),
        }
    }
}

/// The key or proof that the bytes stand for. Bytes that the codec does not
/// accept give no value but a serialization error with the codec's text,
/// which is never empty.
pub fn from_bytes<T: TrySerializer>(bytes: Vec<u8>) -> (r: Result<T, ProofError>)
    ensures
        match r {
            Ok(value) => T::decoding(bytes@) == Some(value),
            Err(e) => T::decoding(bytes@) is None && e@ == ProofErrorView::SerializationError(
                T::refusal_text(bytes@),
            ) && T::refusal_text(bytes@).len() > 0,
        },
        bytes@.len() == 0 ==> r is Err,
{
    T::try_from_bytes(bytes.as_slice())
}

/// The lengths of the vectors `vk.gamma_abc_g1`, `a_query`, `b_g1_query`,
/// `b_g2_query` and `l_query` of the engine's proving key.
#[verifier::external_body]
fn key_shape(key: &ProvingKey) -> (r: KeyShape)
    ensures
        r == proving_key_shape(*key),
{
    KeyShape {
        inputs: key.0.vk.gamma_abc_g1.len(),
        a_query: key.0.a_query.len(),
        b_g1_query: key.0.b_g1_query.len(),
        b_g2_query: key.0.b_g2_query.len(),
        l_query: key.0.l_query.len(),
    }
}

impl ProvingKey {
    /// The lengths of the vectors in the key. With `KeyShape::fits_shape` a
    /// caller can test whether the key was made for a relation of a given
    /// shape.
    pub fn shape(&self) -> (r: KeyShape)
        ensures
            r == proving_key_shape(*self),
    {
        key_shape(self)
    }
}

/// `Groth16::circuit_specific_setup` of the engine over BN254: a proving key
/// and a verifying key for the constraint system that `c` writes during key
/// generation, drawn with the randomness of `rng`.
///
/// The engine makes a system in key-generation mode and hands it to `c`; a
/// failure of `c` or of the engine comes back as it is. The two keys belong
/// together: the verifying key is the one inside the proving key. The
/// randomness drawn here must not be kept: who knows it can forge proofs
/// under these keys.
#[verifier::external_body]
pub fn setup<C: ConstraintSynthesizer<Fr>>(
    c: C,
    rng: &mut StdRng,
) -> (r: Result<(ProvingKey, VerifyingKey), SynthesisFailure>)
    ensures
        r matches Ok(keys) ==> verifying_key_inputs(keys.1) == proving_key_shape(keys.0).inputs,
{
    match Groth16::<Bn254>::circuit_specific_setup(c, rng) {
        Ok((pk, vk)) => Ok((ProvingKey(pk), VerifyingKey(vk))),
        Err(e) => Err(failure_of(e)),
    }
}

/// The size of the largest evaluation domain of the scalar field: two to the
/// power of the field's two-adicity, which is 28.
pub const LARGEST_DOMAIN: usize = 0x1000_0000;

/// `Groth16::create_proof_with_reduction_and_matrices` of the engine over
/// BN254, on the matrices and the assignment of the finalized system and two
/// scalars drawn from `rng`: a proof for the system's assignment. The only
/// failure is a system too large for the field's evaluation domains: the
/// engine asks for a domain of as many points as the system has constraints
/// and instance variables, the constant one counted, and the field has one
/// for every number up to `LARGEST_DOMAIN`. No draw decides whether a proof
/// comes. The engine is asked for satisfied systems only: for another it
/// would make a proof that no key accepts.
#[verifier::external_body]
fn engine_prove(
    key: &ProvingKey,
    cs: ConstraintSystem,
    rng: &mut StdRng,
) -> (r: Result<Bn254Proof, SynthesisFailure>)
    requires
        system_assigned(cs),
        system_satisfied(cs),
        proving_key_shape(*key).fits(system_inputs(cs).len(), system_witnesses(cs).len()),
    ensures
        r matches Err(kind) ==> kind == SynthesisFailure::PolynomialDegreeTooLarge,
        system_constraints(cs) + system_inputs(cs).len() + 1 <= LARGEST_DOMAIN ==> r is Ok,
{
    cs.inner.borrow_mut().finalize();
    let system = cs.inner.borrow();
    let matrices = system.to_matrices().unwrap();
    let assignment = [&system.instance_assignment[..], &system.witness_assignment[..]].concat();
    Groth16::<Bn254>::create_proof_with_reduction_and_matrices(
        &key.0,
        Fr::rand(rng),
        Fr::rand(rng),
        &matrices,
        system.num_instance_variables,
        system.num_constraints,
        &assignment,
    ).map(Bn254Proof).map_err(failure_of)
}

/// `Groth16::verify` of the engine over BN254. Its answer is a function of
/// the key, the inputs and the proof. It refuses a number of public inputs
/// other than the key's as a malformed key; its only other failure is that of
/// the pairing check itself.
#[verifier::external_body]
fn engine_verify(
    key: &VerifyingKey,
    public_input: &[FieldElement],
    proof: &Bn254Proof,
) -> (r: Result<bool, SynthesisFailure>)
    ensures
        r == groth16_verdict(*key, values(public_input@), *proof),
        public_input@.len() + 1 != verifying_key_inputs(*key) ==> r is Err,
        r matches Err(kind) ==> kind == (if public_input@.len() + 1 != verifying_key_inputs(*key) {
            SynthesisFailure::MalformedVerifyingKey
        } else {
            SynthesisFailure::UnexpectedIdentity
        }),
{
    let inputs: Vec<Fr> = public_input.iter().map(
        |x| Fr::new(BigInt([x.l0, x.l1, x.l2, x.l3])),
    ).collect();
    Groth16::<Bn254>::verify(&key.0, &inputs, &proof.0).map_err(failure_of)
}

/// Why no proof is attempted for the relation under the key, if none is: the
/// relation cannot be written into a system, or does not hold of its
/// assignment, or the key was made for a relation of another shape.
pub open spec fn refusal(key: ProvingKey, c: Circuit) -> Option<ProofErrorView> {
    match c.failure(false) {
        Some(kind) => Some(failure_view(kind)),
        None => if !c.holds() {
            Some(ProofErrorView::Unsatisfiable)
        } else if !proving_key_shape(key).fits(c.public_inputs().len(), c.witness_values().len()) {
            Some(ProofErrorView::EngineError(key_mismatch_message()))
        } else {
            None
        },
    }
}

/// No proof is made of a false sum: whatever the key, if `a + b` is not `c`
/// in the field, the sum relation is refused as unsatisfiable.
pub proof fn lemma_false_sum_is_refused(
    key: ProvingKey,
    a: FieldElement,
    b: FieldElement,
    c: FieldElement,
)
    requires
        field_add(a.value(), b.value()) != c.value(),
    ensures
        refusal(key, Circuit::Sum(SumCircuit { a: Some(a), b: Some(b), c: Some(c) })) == Some(
            ProofErrorView::Unsatisfiable,
        ),
{
}

/// A true sum goes to the engine: if `a + b = c` in the field, the sum
/// relation, whose one public input is `c`, is refused under no key that fits
/// it, and under every other key for the mismatch alone.
pub proof fn lemma_true_sum_goes_to_engine(
    key: ProvingKey,
    a: FieldElement,
    b: FieldElement,
    c: FieldElement,
)
    requires
        field_add(a.value(), b.value()) == c.value(),
    ensures
        Circuit::Sum(SumCircuit { a: Some(a), b: Some(b), c: Some(c) }).public_inputs()
            == seq![c.value()],
        refusal(key, Circuit::Sum(SumCircuit { a: Some(a), b: Some(b), c: Some(c) })) == (
        if proving_key_shape(key).fits(1, 2) {
            None
        } else {
            Some(ProofErrorView::EngineError(key_mismatch_message()))
        }),
{
    let circuit = Circuit::Sum(SumCircuit { a: Some(a), b: Some(b), c: Some(c) });
    assert(circuit.public_inputs().len() == 1);
    assert(circuit.witness_values().len() == 2);
}

/// No proof is made of a string that does not start with the other:
/// whatever the key, if the bytes `shorter` are no prefix of the bytes
/// `larger`, the prefix relation on their encodings is refused as
/// unsatisfiable.
pub proof fn lemma_false_prefix_is_refused(
    key: ProvingKey,
    shorter: Seq<u8>,
    larger: Seq<u8>,
    circuit: CompareCircuit,
)
    requires
        circuit.assigned(),
        circuit.shorter_values() == encoding(shorter),
        circuit.larger_values() == encoding(larger),
        !shorter.is_prefix_of(larger),
    ensures
        refusal(key, Circuit::Compare(circuit)) == Some(ProofErrorView::Unsatisfiable),
{
    if starts_with(encoding(larger), encoding(shorter)) {
        assert forall|i: int| 0 <= i < shorter.len() implies shorter[i] == larger[i] by {
            assert(encoding(larger)[i] == encoding(shorter)[i]);
        }
        assert(shorter =~= larger.subrange(0, shorter.len() as int));
    }
}

/// A string that starts with the other goes to the engine: if the bytes
/// `shorter` are a prefix of the bytes `larger`, the prefix relation on their
/// encodings, whose public inputs are the encoding of `shorter`, is refused
/// under no key that fits strings of that length, and under every other key
/// for the mismatch alone.
pub proof fn lemma_true_prefix_goes_to_engine(
    key: ProvingKey,
    shorter: Seq<u8>,
    larger: Seq<u8>,
    circuit: CompareCircuit,
)
    requires
        circuit.assigned(),
        circuit.shorter_values() == encoding(shorter),
        circuit.larger_values() == encoding(larger),
        shorter.is_prefix_of(larger),
    ensures
        Circuit::Compare(circuit).public_inputs() == encoding(shorter),
        refusal(key, Circuit::Compare(circuit)) == (if proving_key_shape(key).fits(
            shorter.len(),
            shorter.len(),
        ) {
            None
        } else {
            Some(ProofErrorView::EngineError(key_mismatch_message()))
        }),
{
    assert(shorter =~= larger.subrange(0, shorter.len() as int));
    assert forall|i: int| 0 <= i < encoding(shorter).len() implies encoding(larger)[i]
        == encoding(shorter)[i] by {
        assert(shorter[i] == larger.subrange(0, shorter.len() as int)[i]);
    }
    assert(starts_with(encoding(larger), encoding(shorter)));
    assert(circuit.witness_values().len() == shorter.len());
}

/// A proof that the relation holds of its assignment, with the randomness of
/// `rng`.
///
/// The relation is written into a fresh system in proving mode, which its
/// assignment satisfies exactly if the relation holds. No proof is
/// made, and the error says why, if a value is unassigned, if the relation
/// does not hold, or if the key does not fit the relation's shape. Otherwise
/// the engine is asked for the proof; its only failure is a system too large
/// for it, so a proof is owed whenever the relation's constraints and public
/// inputs, and the constant one, are no more than `LARGEST_DOMAIN`.
pub fn generate_proof(
    pk: ProvingKey,
    c: Circuit,
    rng: &mut StdRng,
) -> (r: Result<Bn254Proof, ProofError>)
    ensures
        match refusal(pk, c) {
            Some(view) => r matches Err(e) && e@ == view,
            None => r is Ok || (r matches Err(e) && e@ == failure_view(
                SynthesisFailure::PolynomialDegreeTooLarge,
            )),
        },
        refusal(pk, c) is None && c.constraints() + c.public_inputs().len() + 1 <= LARGEST_DOMAIN
            ==> r is Ok,
{
    let holds = c.is_satisfied();
    let mut cs = ConstraintSystem::new();
    match c.generate_constraints(&mut cs) {
        Ok(()) => {},
        Err(kind) => {
            return Err(ProofError::from_failure(kind));
        },
    }
    if !holds {
        return Err(ProofError::Unsatisfiable);
    }
    let shape = cs.shape();
    if !key_shape(&pk).fits_shape(&shape) {
        return Err(ProofError::EngineError("the proving key does not fit the relation".to_owned()));
    }
    outcome(engine_prove(&pk, cs, rng))
}

/// Whether the proof is valid for the public inputs under the key: the
/// engine's verdict.
///
/// The inputs are the values of the relation's public variables in the order
/// of their allocation. A number of inputs other than the key's is an error;
/// a proof that is not valid is the answer `false`, and no error.
pub fn verify_proof(
    vk: VerifyingKey,
    public_input: &[FieldElement],
    proof: Bn254Proof,
) -> (r: Result<bool, ProofError>)
    ensures
        match groth16_verdict(vk, values(public_input@), proof) {
            Ok(accepted) => r == Ok::<bool, ProofError>(accepted),
            Err(kind) => r matches Err(e) && e@ == failure_view(kind),
        },
        public_input@.len() + 1 != verifying_key_inputs(vk) ==> (r matches Err(e) && e@
            == failure_view(SynthesisFailure::MalformedVerifyingKey)),
        public_input@.len() + 1 == verifying_key_inputs(vk) ==> r is Ok || (r matches Err(e) && e@
            == failure_view(SynthesisFailure::UnexpectedIdentity)),
{
    outcome(engine_verify(&vk, public_input, &proof))
}

} // verus!
