//! Zero-knowledge proofs of two small relations over the BN254 scalar field,
//! produced and checked with the Groth16 proof system.
//!
//! * the sum relation: the prover knows private `a` and `b` with `a + b = c`
//!   for a public `c`;
//! * the prefix relation: a private string starts with a public, shorter one.
//!
//! The relations, the way they are written into a constraint system, the
//! proving pipeline around the engine and the byte codec live here with their
//! contracts. The curve arithmetic, the pairing and the proof system itself
//! are the engine's.
//!
//! A proof is made by `circuits::groth16::generate_proof`, which writes the
//! relation into a system of its own and asks the engine for the proof only
//! if the relation holds of its assignment. Keys are made by
//! `circuits::groth16::setup`. There the engine drives the synthesis through
//! its trait `ConstraintSynthesizer`: an implementation of it puts the system
//! that the engine hands over into a `circuits::system::ConstraintSystem` and
//! calls `circuits::Circuit::generate_constraints`.
//!
//! Randomness is never ambient: key generation and proving draw from the
//! generator that the caller passes.
pub mod circuits;
pub mod exports;
