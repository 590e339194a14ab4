//! The errors of the library, each with the code that callers report.

use vstd::prelude::*;

verus! {

/// Why an operation of the library failed.
#[derive(Clone, Copy, Debug, PartialEq, Eq, Structural)]
pub enum Error {
    /// The input is not a well-formed hex string.
    HexDecode,
    /// The hex string encodes more than 32 bytes.
    FieldOverflow,
    /// The hex string encodes a value at or above the field order.
    OutOfField,
    /// The Poseidon sponge produced no output element.
    SqueezeFailed,
    /// A Merkle path element is not a string.
    InvalidPathElementStr,
    /// The Merkle path does not have exactly four levels.
    MerklePathDepth,
    /// The proving key is not a well-formed hex string.
    InvalidPkHex,
    /// The proving key bytes do not decode.
    DeserializePk,
    /// No entropy could be gathered for the prover.
    EntropyFailed,
    /// The prover failed.
    ProvingFailed,
    /// The proof could not be serialized.
    SerializeProof,
    /// The proof is not a well-formed hex string.
    InvalidProofHex,
    /// The proof bytes do not decode.
    DeserializeProof,
    /// The verifying key is not a well-formed hex string.
    InvalidVkHex,
    /// The verifying key bytes do not decode.
    DeserializeVk,
    /// The verifier failed before reaching a verdict.
    VerificationCrash,
}

/// The code reported for each error.
pub open spec fn error_code(e: Error) -> Seq<char> {
    match e {
        Error::HexDecode => "ERR_HEX_DECODE"@,
        Error::FieldOverflow => "ERR_FIELD_OVERFLOW"@,
        Error::OutOfField => "ERR_FIELD_OUT_OF_RANGE"@,
        Error::SqueezeFailed => "ERR_SQUEEZE_FAILED"@,
        Error::InvalidPathElementStr => "ERR_INVALID_PATH_ELEMENT_STR"@,
        Error::MerklePathDepth => "ERR_MERKLE_PATH_DEPTH_MUST_BE_4"@,
        Error::InvalidPkHex => "ERR_INVALID_PK_HEX"@,
        Error::DeserializePk => "ERR_DESERIALIZE_PK"@,
        Error::EntropyFailed => "ERR_ENTROPY_FAILED"@,
        Error::ProvingFailed => "ERR_PROVING_FAILED"@,
        Error::SerializeProof => "ERR_SERIALIZE_PROOF"@,
        Error::InvalidProofHex => "ERR_INVALID_PROOF_HEX"@,
        Error::DeserializeProof => "ERR_DESERIALIZE_PROOF"@,
        Error::InvalidVkHex => "ERR_INVALID_VK_HEX"@,
        Error::DeserializeVk => "ERR_DESERIALIZE_VK"@,
        Error::VerificationCrash => "ERR_VERIFICATION_CRASH"@,
    }
}

impl Error {
    /// The code reported for this error.
    pub fn code(&self) -> (r: &'static str)
        ensures
            r@ == error_code(*self),
    {
        match self {
            Error::HexDecode => "ERR_HEX_DECODE",
            Error::FieldOverflow => "ERR_FIELD_OVERFLOW",
            Error::OutOfField => "ERR_FIELD_OUT_OF_RANGE",
            Error::SqueezeFailed => "ERR_SQUEEZE_FAILED",
            Error::InvalidPathElementStr => "ERR_INVALID_PATH_ELEMENT_STR",
            Error::MerklePathDepth => "ERR_MERKLE_PATH_DEPTH_MUST_BE_4",
            Error::InvalidPkHex => "ERR_INVALID_PK_HEX",
            Error::DeserializePk => "ERR_DESERIALIZE_PK",
            Error::EntropyFailed => "ERR_ENTROPY_FAILED",
            Error::ProvingFailed => "ERR_PROVING_FAILED",
            Error::SerializeProof => "ERR_SERIALIZE_PROOF",
            Error::InvalidProofHex => "ERR_INVALID_PROOF_HEX",
            Error::DeserializeProof => "ERR_DESERIALIZE_PROOF",
            Error::InvalidVkHex => "ERR_INVALID_VK_HEX",
            Error::DeserializeVk => "ERR_DESERIALIZE_VK",
            Error::VerificationCrash => "ERR_VERIFICATION_CRASH",
        }
    }
}

} // verus!
