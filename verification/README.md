# identifi_core

The core of a privacy-preserving identity protocol over the BN254 scalar
field, verified with Verus.

- `src/field.rs`: field elements as four canonical limbs, reduction of
  big-endian bytes, addition, and the big-endian encoding.
- `src/hex.rs`: hex decoding and encoding with optional `0x` prefixes, and
  reading and writing field elements.
- `src/poseidon.rs`: the Poseidon parameters and the digest of a pair.
- `src/commitment.rs`: the commitment root of an address pair.
- `src/circuit.rs`: the witness of the membership circuit and the
  statement its constraints encode.
- `src/groth16.rs`: proof requests and proof verification.
- `src/wipe.rs`, `src/error.rs`: wiping of secrets, error codes.
- `src/laws.rs`: properties that span operations (hex round trips,
  symmetry of the commitment root, and others).
- `app/`: the WebAssembly bindings, the constraint synthesis of the circuit
  for the prover, and the key setup.
