//! Core engine of a privacy-preserving identity protocol over the BN254
//! scalar field: hex field parsing, commitment roots, Poseidon digests and
//! Groth16 proof verification.

pub mod circuit;
pub mod commitment;
pub mod error;
pub mod field;
pub mod groth16;
pub mod hex;
pub mod laws;
pub mod poseidon;
pub mod wipe;
