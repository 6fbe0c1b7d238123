//! Proof generation for callers outside Rust, on plain bytes and integers.
//!
//! The boundary itself, with its raw buffers and their ownership, is ordinary
//! Rust around this module. What it computes is here: from the bytes of a
//! proving key and three integers to the bytes of a proof, or to nothing.
use crate::circuits::field::{field_add, modulus, FieldElement};
use crate::circuits::groth16::{
    from_bytes, generate_proof, proof_bytes, proof_from, proving_key_from, proving_key_shape,
    Bn254Proof, ProofError, ProvingKey, TrySerializer,
};
use crate::circuits::sum::SumCircuit;
use crate::circuits::Circuit;
use rand::rngs::StdRng;
use vstd::prelude::*;

verus! {

/// The largest length that the boundary can report: it reports lengths as
/// 32-bit signed integers, and a length of zero for no buffer.
pub const MAX_REPORTED_LENGTH: usize = 0x7fff_ffff;

/// Whether no proof comes back for the key bytes and the integers, whatever
/// the engine does: the bytes are no proving key, or `a + b` is not `c`, or
/// the key was not made for the sum relation.
pub open spec fn sum_refused(pk: Seq<u8>, a: u32, b: u32, c: u32) -> bool {
    ||| proving_key_from(pk) is None
    ||| a + b != c
    ||| !proving_key_shape(proving_key_from(pk)->0).fits(1, 2)
}

/// The canonical bytes of a proof that `a + b = c`, made under the proving
/// key that `pk` holds in canonical bytes.
///
/// Bytes come back exactly if `pk` holds a proving key that fits the sum
/// relation and `a + b` is `c`. Everything else gives `None`: bytes that are
/// no proving key, the empty sequence among them; a sum that is not `c`; a
/// key that does not fit the sum relation.
pub fn generate_proof_for_sum(
    pk: Vec<u8>,
    a: u32,
    b: u32,
    c: u32,
    rng: &mut StdRng,
) -> (r: Option<Vec<u8>>)
    ensures
        sum_refused(pk@, a, b, c) ==> r is None,
        !sum_refused(pk@, a, b, c) ==> r is Some,
        pk@.len() == 0 ==> r is None,
        r matches Some(bytes) ==> 0 < bytes@.len() <= MAX_REPORTED_LENGTH,
        r matches Some(bytes) ==> exists|proof: Bn254Proof|
            proof_bytes(proof) == Some(bytes@) && proof_from(bytes@) == Some(proof),
{
    let key: ProvingKey = match from_bytes(pk) {
        Ok(key) => key,
        Err(_) => {
            return None;
        },
    };
    let x = FieldElement::from_u64(a as u64);
    let y = FieldElement::from_u64(b as u64);
    let z = FieldElement::from_u64(c as u64);
    let circuit = Circuit::Sum(SumCircuit::new(Some(x), Some(y), Some(z)));
    proof {
        assert(field_add(a as nat, b as nat) == (a + b) as nat) by {
            vstd::arithmetic::div_mod::lemma_small_mod((a + b) as nat, modulus());
        }
        assert(circuit.holds() <==> a + b == c);
    }
    proof_buffer(generate_proof(key, circuit, rng))
}

/// The bytes that the boundary hands out for an outcome of proving: none for
/// a failure; for a proof its canonical bytes, if the codec gives any and
/// their length can be reported.
pub open spec fn handed_out(outcome: Result<Bn254Proof, ProofError>) -> Option<Seq<u8>> {
    match outcome {
        Ok(proof) => match proof_bytes(proof) {
            Some(bytes) => if 0 < bytes.len() <= MAX_REPORTED_LENGTH {
                Some(bytes)
            } else {
                None
            },
            None => None,
        },
        Err(_) => None,
    }
}

/// What the boundary hands out for an outcome of proving.
///
/// A failure of proving gives `None`, whatever the failure was. A proof
/// gives its canonical bytes, from which it can be read back: the codec
/// writes them for every proof, and their length can be reported.
pub fn proof_buffer(outcome: Result<Bn254Proof, ProofError>) -> (r: Option<Vec<u8>>)
    ensures
        match r {
            Some(bytes) => handed_out(outcome) == Some(bytes@),
            None => handed_out(outcome) is None,
        },
        r matches Some(bytes) ==> outcome matches Ok(proof) && proof_from(bytes@) == Some(proof),
        outcome is Ok ==> r is Some,
{
    match outcome {
        Ok(proof) => match proof.try_to_bytes() {
            Ok(bytes) => {
                if 0 < bytes.len() && bytes.len() <= MAX_REPORTED_LENGTH {
                    Some(bytes)
                } else {
                    None
                }
            },
            Err(_) => None,
        },
        Err(_) => None,
    }
}

} // verus!
