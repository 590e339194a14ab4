//! Groth16 proofs over BN254 for the membership circuit: decoding of keys
//! and proofs, verification of a proof against the public inputs, and the
//! preparation and finishing of a proof request around the prover.

use vstd::prelude::*;
use vstd::string::StringSliceAdditionalSpecFns;
use vstd::utf8::encode_utf8;
use ark_serialize::{CanonicalDeserialize, CanonicalSerialize};
use ark_snark::SNARK;

use crate::circuit::{IdentiFIClusterCircuit, wipe_path_elements};
use crate::error::Error;
use crate::field::Fr;
use crate::hex::{
    decode_prefixed_hex, encode_prefixed_hex, fr_from_hex, hex_decodable, hex_decode,
    hex_encode, hex_prefix_stripped, parse_field_hex,
};
use crate::wipe::{wipe_byte_array, wipe_string};

verus! {

/// The arkworks form of a Groth16 proving key for BN254.
#[verifier::external_body]
pub struct ProvingKeyHandle {
    pub key: ark_groth16::ProvingKey<ark_bn254::Bn254>,
}

/// The arkworks form of a Groth16 verifying key for BN254.
#[verifier::external_body]
pub struct VerifyingKeyHandle {
    pub key: ark_groth16::VerifyingKey<ark_bn254::Bn254>,
}

/// The arkworks form of a Groth16 proof for BN254.
#[verifier::external_body]
pub struct ProofHandle {
    pub proof: ark_groth16::Proof<ark_bn254::Bn254>,
}

/// A proving key, decoded and validated, with the bytes it was read from.
pub struct ProvingKey {
    handle: ProvingKeyHandle,
    source: Ghost<Seq<u8>>,
}

/// A verifying key, decoded and validated, with the bytes it was read from.
pub struct VerifyingKey {
    handle: VerifyingKeyHandle,
    source: Ghost<Seq<u8>>,
}

/// A proof, decoded and validated, with the bytes it was read from.
pub struct Proof {
    handle: ProofHandle,
    source: Ghost<Seq<u8>>,
}

impl ProvingKey {
    /// The compressed encoding the key was decoded from.
    pub closed spec fn source(&self) -> Seq<u8> {
        self.source@
    }

    /// The arkworks key, for the prover.
    pub fn handle(&self) -> &ProvingKeyHandle {
        &self.handle
    }
}

impl VerifyingKey {
    /// The compressed encoding the key was decoded from.
    pub closed spec fn source(&self) -> Seq<u8> {
        self.source@
    }
}

impl Proof {
    /// The compressed encoding the proof was decoded from.
    pub closed spec fn source(&self) -> Seq<u8> {
        self.source@
    }
}

/// Whether the bytes are the compressed encoding of a valid proving key.
pub uninterp spec fn proving_key_decodes(bytes: Seq<u8>) -> bool;

/// Whether the bytes are the compressed encoding of a valid verifying key.
pub uninterp spec fn verifying_key_decodes(bytes: Seq<u8>) -> bool;

/// Whether the bytes are the compressed encoding of a valid proof.
pub uninterp spec fn proof_decodes(bytes: Seq<u8>) -> bool;

/// What the Groth16 verifier answers for the key and the proof that the
/// given compressed encodings decode to and the given public inputs: the
/// verdict, or `None` when the call fails (as when the key does not fit the
/// number of inputs).
pub uninterp spec fn groth16_verdict(vk: Seq<u8>, inputs: Seq<nat>, proof: Seq<u8>) -> Option<bool>;

/// The compressed encoding of a proof: what the proof holds, written out as
/// bytes.
pub uninterp spec fn proof_encoding(p: ProofHandle) -> Seq<u8>;

/// The values of a sequence of field elements.
pub open spec fn field_values(v: Seq<Fr>) -> Seq<nat> {
    v.map_values(|x: Fr| x@)
}

/// Calls `ark_groth16::ProvingKey::<Bn254>::deserialize_compressed`, which
/// reads and validates the compressed encoding; claims only that it
/// succeeds exactly on the bytes named as decodable.
#[verifier::external_body]
fn deserialize_proving_key(bytes: &[u8]) -> (r: Option<ProvingKeyHandle>)
    ensures
        r is Some <==> proving_key_decodes(bytes@),
{
    ark_groth16::ProvingKey::<ark_bn254::Bn254>::deserialize_compressed(bytes).ok().map(
        |key| ProvingKeyHandle { key },
    )
}

/// Calls `ark_groth16::VerifyingKey::<Bn254>::deserialize_compressed`;
/// claims only that it succeeds exactly on the bytes named as decodable.
#[verifier::external_body]
fn deserialize_verifying_key(bytes: &[u8]) -> (r: Option<VerifyingKeyHandle>)
    ensures
        r is Some <==> verifying_key_decodes(bytes@),
{
    ark_groth16::VerifyingKey::<ark_bn254::Bn254>::deserialize_compressed(bytes).ok().map(
        |key| VerifyingKeyHandle { key },
    )
}

/// Calls `ark_groth16::Proof::<Bn254>::deserialize_compressed`; claims
/// only that it succeeds exactly on the bytes named as decodable.
#[verifier::external_body]
fn deserialize_proof(bytes: &[u8]) -> (r: Option<ProofHandle>)
    ensures
        r is Some <==> proof_decodes(bytes@),
{
    ark_groth16::Proof::<ark_bn254::Bn254>::deserialize_compressed(bytes).ok().map(
        |proof| ProofHandle { proof },
    )
}

/// Decodes a proving key and records the bytes it came from.
fn decode_proving_key(bytes: &[u8]) -> (r: Option<ProvingKey>)
    ensures
        r is Some <==> proving_key_decodes(bytes@),
        r matches Some(k) ==> k.source() == bytes@,
{
    match deserialize_proving_key(bytes) {
        Some(handle) => Some(ProvingKey { handle, source: Ghost(bytes@) }),
        None => None,
    }
}

/// Decodes a verifying key and records the bytes it came from.
fn decode_verifying_key(bytes: &[u8]) -> (r: Option<VerifyingKey>)
    ensures
        r is Some <==> verifying_key_decodes(bytes@),
        r matches Some(k) ==> k.source() == bytes@,
{
    match deserialize_verifying_key(bytes) {
        Some(handle) => Some(VerifyingKey { handle, source: Ghost(bytes@) }),
        None => None,
    }
}

/// Decodes a proof and records the bytes it came from.
fn decode_proof(bytes: &[u8]) -> (r: Option<Proof>)
    ensures
        r is Some <==> proof_decodes(bytes@),
        r matches Some(p) ==> p.source() == bytes@,
{
    match deserialize_proof(bytes) {
        Some(handle) => Some(Proof { handle, source: Ghost(bytes@) }),
        None => None,
    }
}

/// Calls `<Groth16<Bn254> as SNARK>::verify` on the public inputs, each
/// built from its limbs. The key and the proof were decoded, by the
/// functions above and nowhere else, from the bytes they record; the
/// verifier's answer is a function of what it is handed, so it is claimed
/// to be the named verdict of those bytes and the input values (`None`
/// when the call returns an error, as when the key does not fit the number
/// of inputs; the call does not panic on canonical inputs).
#[verifier::external_body]
fn groth16_verify(vk: &VerifyingKey, public_inputs: &Vec<Fr>, proof: &Proof) -> (r: Option<bool>)
    ensures
        r == groth16_verdict(vk.source(), field_values(public_inputs@), proof.source()),
{
    let inputs: Vec<ark_bn254::Fr> = public_inputs.iter().map(
        |x| ark_ff::BigInt::new(x.limbs).into(),
    ).collect();
    ark_groth16::Groth16::<ark_bn254::Bn254>::verify(&vk.handle.key, &inputs, &proof.handle.proof).ok()
}

/// Calls `CanonicalSerialize::serialize_compressed` on the proof, into a
/// fresh vector. Claims that it succeeds with the named encoding of the
/// proof, a function of the proof alone, 128 bytes long: writing into a
/// vector cannot fail, and the compressed encoding is the `x` coordinate
/// with its flags of the two G1 points (32 bytes each) and of the G2 point
/// (64 bytes). It does not claim that the bytes decode: a proof built by
/// other means than the prover need not hold valid points.
#[verifier::external_body]
fn serialize_proof(proof: &ProofHandle) -> (r: Option<Vec<u8>>)
    ensures
        r is Some,
        r.unwrap()@ == proof_encoding(*proof),
        r.unwrap()@.len() == 128,
{
    let mut out = Vec::new();
    proof.proof.serialize_compressed(&mut out).ok().map(|_| out)
}

/// Calls `getrandom::getrandom` on a 32-byte buffer. Nothing is claimed of
/// the bytes, which come from the operating system, nor of whether the
/// call succeeds.
#[verifier::external_body]
fn gather_seed() -> (r: Option<[u8; 32]>)
{
    let mut seed = [0u8; 32];
    getrandom::getrandom(&mut seed).ok().map(|_| seed)
}

/// The entropy source has answered that it can give no entropy: the only
/// ground on which a valid proof request ends in `EntropyFailed`.
pub closed spec fn entropy_unavailable() -> bool {
    call_ensures(gather_seed, (), None::<[u8; 32]>)
}

/// Draws from an entropy source, recording what it answered.
fn draw_entropy<E: FnOnce() -> Option<[u8; 32]>>(source: E) -> (r: Option<[u8; 32]>)
    requires
        call_requires(source, ()),
    ensures
        call_ensures(source, (), r),
{
    source()
}

/// The first failure among the inputs of a verification request: the
/// root, then the proof's hex and encoding, then the verifying key's hex
/// and encoding. `None` when all of them decode.
pub open spec fn verify_request_error(proof: Seq<u8>, root: Seq<u8>, vk: Seq<u8>) -> Option<Error> {
    let proof_digits = hex_prefix_stripped(proof);
    let vk_digits = hex_prefix_stripped(vk);
    if parse_field_hex(root) is Err {
        Some(parse_field_hex(root)->Err_0)
    } else if !hex_decodable(proof_digits) {
        Some(Error::InvalidProofHex)
    } else if !proof_decodes(hex_decode(proof_digits)) {
        Some(Error::DeserializeProof)
    } else if !hex_decodable(vk_digits) {
        Some(Error::InvalidVkHex)
    } else if !verifying_key_decodes(hex_decode(vk_digits)) {
        Some(Error::DeserializeVk)
    } else {
        None
    }
}

/// What a verification request answers: the first input failure, or else
/// the verdict of the verifier on the decoded key, the public inputs root,
/// expiry and issue time in that order, and the decoded proof, and the
/// crash error when the verifier fails.
pub open spec fn verify_request_result(
    proof: Seq<u8>,
    root: Seq<u8>,
    iat: u64,
    exp: u64,
    vk: Seq<u8>,
) -> Result<bool, Error> {
    match verify_request_error(proof, root, vk) {
        Some(e) => Err(e),
        None => match groth16_verdict(
            hex_decode(hex_prefix_stripped(vk)),
            seq![parse_field_hex(root)->Ok_0, exp as nat, iat as nat],
            hex_decode(hex_prefix_stripped(proof)),
        ) {
            Some(b) => Ok(b),
            None => Err(Error::VerificationCrash),
        },
    }
}

/// Checks a Groth16 proof, given in hex, against the commitment root and
/// the validity window, with the verifying key given in hex. The public
/// inputs are the root, the expiry and the issue time, in that order.
pub fn client_verify_proof(
    proof_hex: &str,
    root_hex: &str,
    iat: u64,
    exp: u64,
    verifying_key_hex: &str,
) -> (r: Result<bool, Error>)
    ensures
        r == verify_request_result(
            proof_hex.spec_bytes(),
            root_hex.spec_bytes(),
            iat,
            exp,
            verifying_key_hex.spec_bytes(),
        ),
{
    let root = match fr_from_hex(root_hex) {
        Ok(x) => x,
        Err(e) => return Err(e),
    };
    let iat_f = Fr::from_u64(iat);
    let exp_f = Fr::from_u64(exp);
    let public_inputs = vec![root, exp_f, iat_f];
    let proof_bytes = match decode_prefixed_hex(proof_hex) {
        Some(b) => b,
        None => return Err(Error::InvalidProofHex),
    };
    let proof = match decode_proof(proof_bytes.as_slice()) {
        Some(p) => p,
        None => return Err(Error::DeserializeProof),
    };
    let vk_bytes = match decode_prefixed_hex(verifying_key_hex) {
        Some(b) => b,
        None => return Err(Error::InvalidVkHex),
    };
    let vk = match decode_verifying_key(vk_bytes.as_slice()) {
        Some(k) => k,
        None => return Err(Error::DeserializeVk),
    };
    assert(field_values(public_inputs@) =~= seq![root@, exp as nat, iat as nat]);
    match groth16_verify(&vk, &public_inputs, &proof) {
        Some(is_valid) => Ok(is_valid),
        None => Err(Error::VerificationCrash),
    }
}


/// What the prover is handed: the decoded proving key, the circuit
/// assignments and 32 bytes of entropy to seed its random generator.
pub struct ProverInput {
    pub proving_key: ProvingKey,
    pub circuit: IdentiFIClusterCircuit,
    pub seed: [u8; 32],
}

/// An assignment of the given value.
pub open spec fn assigned(o: Option<Fr>, v: nat) -> bool {
    o matches Some(x) && x@ == v
}

/// The bytes of a string, when there is one.
pub open spec fn string_bytes(o: Option<String>) -> Option<Seq<u8>> {
    match o {
        Some(s) => Some(encode_utf8(s@)),
        None => None,
    }
}

/// The bytes of each path element that is a string.
pub open spec fn path_bytes(v: Seq<Option<String>>) -> Seq<Option<Seq<u8>>> {
    v.map_values(|o: Option<String>| string_bytes(o))
}

/// Reads the Merkle path elements in order: the first element that is not
/// a string or does not parse decides the error; otherwise their values.
pub open spec fn parse_path(elems: Seq<Option<Seq<u8>>>) -> Result<Seq<nat>, Error>
    decreases elems.len(),
{
    if elems.len() == 0 {
        Ok(Seq::empty())
    } else {
        match elems[0] {
            None => Err(Error::InvalidPathElementStr),
            Some(s) => match parse_field_hex(s) {
                Err(e) => Err(e),
                Ok(v) => match parse_path(elems.drop_first()) {
                    Ok(vs) => Ok(seq![v] + vs),
                    Err(e) => Err(e),
                },
            },
        }
    }
}

/// The values of a proof request, or the first failure among its inputs:
/// the three addresses, the path elements, the path depth (four levels of
/// elements and of directions), then the proving key's hex and encoding.
pub open spec fn proof_request_values(
    master: Seq<u8>,
    sub: Seq<u8>,
    root: Seq<u8>,
    elems: Seq<Option<Seq<u8>>>,
    n_indices: nat,
    pk: Seq<u8>,
) -> Result<(nat, nat, nat, Seq<nat>), Error> {
    let pk_digits = hex_prefix_stripped(pk);
    match parse_field_hex(master) {
        Err(e) => Err(e),
        Ok(m) => match parse_field_hex(sub) {
            Err(e) => Err(e),
            Ok(s) => match parse_field_hex(root) {
                Err(e) => Err(e),
                Ok(rt) => match parse_path(elems) {
                    Err(e) => Err(e),
                    Ok(p) => if p.len() != 4 || n_indices != 4 {
                        Err(Error::MerklePathDepth)
                    } else if !hex_decodable(pk_digits) {
                        Err(Error::InvalidPkHex)
                    } else if !proving_key_decodes(hex_decode(pk_digits)) {
                        Err(Error::DeserializePk)
                    } else {
                        Ok((m, s, rt, p))
                    },
                },
            },
        },
    }
}

/// The circuit assigns exactly the given values: every address and
/// timestamp present, the path elements in order, and a direction per index
/// byte (any nonzero byte meaning that the running hash is the left node).
pub open spec fn circuit_assigns(
    c: IdentiFIClusterCircuit,
    master: nat,
    sub: nat,
    root: nat,
    iat: u64,
    exp: u64,
    path: Seq<nat>,
    indices: Seq<u8>,
) -> bool {
    &&& c.master_address matches Some(x) && x@ == master
    &&& c.sub_wallet_address matches Some(x) && x@ == sub
    &&& c.commitment_root matches Some(x) && x@ == root
    &&& c.timestamp_iat matches Some(x) && x@ == iat
    &&& c.timestamp_exp matches Some(x) && x@ == exp
    &&& c.path_elements@.len() == path.len()
    &&& forall|i: int|
        0 <= i < path.len() ==> assigned(#[trigger] c.path_elements@[i], path[i])
    &&& c.path_indices@ == indices.map_values(|b: u8| Some(b != 0))
}

/// A copy of the path assignments.
fn copy_path(v: &Vec<Option<Fr>>) -> (r: Vec<Option<Fr>>)
    ensures
        r@ == v@,
{
    let mut out: Vec<Option<Fr>> = Vec::new();
    let mut i: usize = 0;
    while i < v.len()
        invariant
            i <= v@.len(),
            out@ == v@.subrange(0, i as int),
        decreases v@.len() - i,
    {
        out.push(v[i]);
        i = i + 1;
        proof {
            assert(out@ =~= v@.subrange(0, i as int));
        }
    }
    proof {
        assert(v@.subrange(0, v@.len() as int) =~= v@);
    }
    out
}

/// Reads the Merkle path elements in order, wiping each string once read.
fn parse_path_elements(path_elements: Vec<Option<String>>) -> (r: Result<Vec<Option<Fr>>, Error>)
    ensures
        match parse_path(path_bytes(path_elements@)) {
            Ok(vs) => r matches Ok(v) && v@.len() == vs.len() && forall|i: int|
                0 <= i < vs.len() ==> assigned(#[trigger] v@[i], vs[i]),
            Err(e) => r == Err::<Vec<Option<Fr>>, Error>(e),
        },
{
    let ghost orig = path_elements@;
    let ghost elems = path_bytes(orig);
    let ghost mut done: Seq<nat> = Seq::empty();
    let mut rest = path_elements;
    let mut parsed: Vec<Option<Fr>> = Vec::new();
    let ghost mut k: int = 0;
    proof {
        assert(elems.subrange(0, elems.len() as int) =~= elems);
        assert(orig.subrange(0, orig.len() as int) =~= orig);
    }
    while rest.len() > 0
        invariant
            0 <= k <= orig.len(),
            orig == path_elements@,
            elems == path_bytes(orig),
            rest@ == orig.subrange(k, orig.len() as int),
            parsed@.len() == done.len(),
            forall|i: int| 0 <= i < done.len() ==> assigned(#[trigger] parsed@[i], done[i]),
            parse_path(elems) == (match parse_path(elems.subrange(k, elems.len() as int)) {
                Ok(vs) => Ok(done + vs),
                Err(e) => Err::<Seq<nat>, Error>(e),
            }),
        decreases rest@.len(),
    {
        let ghost tail = elems.subrange(k, elems.len() as int);
        proof {
            assert(tail.drop_first() =~= elems.subrange(k + 1, elems.len() as int));
            assert(tail[0] == string_bytes(orig[k]));
        }
        let item = rest.remove(0);
        proof {
            assert(item == orig[k]);
            assert(tail.len() > 0);
            assert(tail[0] == string_bytes(item));
        }
        match item {
            None => {
                assert(parse_path(tail) == Err::<Seq<nat>, Error>(Error::InvalidPathElementStr));
                return Err(Error::InvalidPathElementStr);
            },
            Some(mut hex_str) => {
                let ghost bytes = encode_utf8(hex_str@);
                assert(tail[0] == Some(bytes));
                let value = fr_from_hex(hex_str.as_str());
                wipe_string(&mut hex_str);
                match value {
                    Ok(x) => {
                        parsed.push(Some(x));
                        proof {
                            let v = x@;
                            assert(forall|vs: Seq<nat>| (done + (seq![v] + vs)) =~= ((done.push(v)) + vs));
                            done = done.push(v);
                            k = k + 1;
                            assert(rest@ =~= orig.subrange(k, orig.len() as int));
                        }
                    },
                    Err(e) => {
                        assert(parse_field_hex(bytes) == Err::<nat, Error>(e));
                        assert(parse_path(tail) == Err::<Seq<nat>, Error>(e));
                        return Err(e);
                    },
                }
            },
        }
    }
    proof {
        assert(elems.subrange(k, elems.len() as int) =~= Seq::<Option<Seq<u8>>>::empty());
        assert(done + Seq::<nat>::empty() =~= done);
    }
    Ok(parsed)
}


/// The direction at each level: a nonzero byte means that the running hash
/// is the left node.
fn path_directions(path_indices: &Vec<u8>) -> (r: Vec<Option<bool>>)
    ensures
        r@ == path_indices@.map_values(|b: u8| Some(b != 0)),
{
    let mut out: Vec<Option<bool>> = Vec::new();
    let mut i: usize = 0;
    while i < path_indices.len()
        invariant
            i <= path_indices@.len(),
            out@ == path_indices@.subrange(0, i as int).map_values(|b: u8| Some(b != 0)),
        decreases path_indices@.len() - i,
    {
        out.push(Some(path_indices[i] != 0));
        i = i + 1;
        proof {
            assert(out@ =~= path_indices@.subrange(0, i as int).map_values(|b: u8| Some(b != 0)));
        }
    }
    proof {
        assert(path_indices@.subrange(0, path_indices@.len() as int) =~= path_indices@);
    }
    out
}

/// The outcomes that a proof request may end in once its inputs are valid.
pub open spec fn prover_stage_outcome(r: Result<String, Error>) -> bool {
    r is Ok || r == Err::<String, Error>(Error::EntropyFailed) || r == Err::<String, Error>(
        Error::ProvingFailed,
    )
}

/// Builds a Groth16 proof of membership. The addresses and the path
/// elements are given in hex, the path directions as bytes (nonzero for a
/// left node) and the proving key in hex. Once the inputs are read and
/// checked and 32 bytes of entropy are gathered, `prove` runs the prover on
/// the circuit; its proof is returned as `0x` and the hex digits of its
/// 128-byte compressed encoding (the serialization error is kept for the
/// record but cannot occur). Secrets are wiped on the way: each path string once
/// read, the entropy once handed over, and the addresses and path elements
/// when the request is refused for its depth and after the prover ran.
pub fn client_generate_proof<F: FnOnce(ProverInput) -> Option<ProofHandle>>(
    master_hex: &str,
    sub_wallet_hex: &str,
    root_hex: &str,
    iat: u64,
    exp: u64,
    path_elements: Vec<Option<String>>,
    path_indices: Vec<u8>,
    proving_key_hex: &str,
    prove: F,
) -> (r: Result<String, Error>)
    requires
        forall|input: ProverInput| #[trigger] call_requires(prove, (input,)),
    ensures
        match proof_request_values(
            master_hex.spec_bytes(),
            sub_wallet_hex.spec_bytes(),
            root_hex.spec_bytes(),
            path_bytes(path_elements@),
            path_indices@.len(),
            proving_key_hex.spec_bytes(),
        ) {
            Err(e) => r == Err::<String, Error>(e),
            Ok(values) => {
                &&& prover_stage_outcome(r)
                &&& r == Err::<String, Error>(Error::EntropyFailed) ==> entropy_unavailable()
                &&& r != Err::<String, Error>(Error::EntropyFailed) ==> exists|
                    input: ProverInput,
                    out: Option<ProofHandle>,
                |
                    #[trigger] call_ensures(prove, (input,), out) && circuit_assigns(
                        input.circuit,
                        values.0,
                        values.1,
                        values.2,
                        iat,
                        exp,
                        values.3,
                        path_indices@,
                    ) && input.proving_key.source() == hex_decode(
                        hex_prefix_stripped(proving_key_hex.spec_bytes()),
                    ) && (out is None <==> r == Err::<String, Error>(Error::ProvingFailed)) && (
                    r matches Ok(text) ==> out matches Some(p) && text@ == "0x"@ + hex_encode(
                        proof_encoding(p),
                    ))
                &&& r matches Ok(text) ==> exists|input: ProverInput, p: ProofHandle|
                    #[trigger] call_ensures(prove, (input,), Some(p)) && proof_encoding(p).len()
                        == 128 && text@ == "0x"@ + hex_encode(proof_encoding(p))
            },
        },
{
    let mut master = match fr_from_hex(master_hex) {
        Ok(x) => x,
        Err(e) => return Err(e),
    };
    let mut sub_wallet = match fr_from_hex(sub_wallet_hex) {
        Ok(x) => x,
        Err(e) => return Err(e),
    };
    let root = match fr_from_hex(root_hex) {
        Ok(x) => x,
        Err(e) => return Err(e),
    };
    let iat_f = Fr::from_u64(iat);
    let exp_f = Fr::from_u64(exp);
    let mut path_values = match parse_path_elements(path_elements) {
        Ok(v) => v,
        Err(e) => return Err(e),
    };
    let directions = path_directions(&path_indices);
    if path_values.len() != 4 || directions.len() != 4 {
        master.zeroize();
        sub_wallet.zeroize();
        wipe_path_elements(&mut path_values);
        return Err(Error::MerklePathDepth);
    }
    let pk_bytes = match decode_prefixed_hex(proving_key_hex) {
        Some(b) => b,
        None => return Err(Error::InvalidPkHex),
    };
    let pk = match decode_proving_key(pk_bytes.as_slice()) {
        Some(k) => k,
        None => return Err(Error::DeserializePk),
    };
    let circuit = IdentiFIClusterCircuit {
        master_address: Some(master),
        sub_wallet_address: Some(sub_wallet),
        commitment_root: Some(root),
        timestamp_exp: Some(exp_f),
        timestamp_iat: Some(iat_f),
        path_elements: copy_path(&path_values),
        path_indices: directions,
    };
    let mut seed = match draw_entropy(gather_seed) {
        Some(s) => s,
        None => return Err(Error::EntropyFailed),
    };
    let input = ProverInput { proving_key: pk, circuit, seed };
    wipe_byte_array(&mut seed);
    let ghost handed = input;
    let outcome = prove(input);
    master.zeroize();
    sub_wallet.zeroize();
    wipe_path_elements(&mut path_values);
    let proof = match outcome {
        Some(p) => p,
        None => {
            assert(call_ensures(prove, (handed,), outcome));
            return Err(Error::ProvingFailed);
        },
    };
    let serialized = match serialize_proof(&proof) {
        Some(b) => b,
        None => {
            assert(call_ensures(prove, (handed,), outcome));
            return Err(Error::SerializeProof);
        },
    };
    assert(call_ensures(prove, (handed,), outcome));
    Ok(encode_prefixed_hex(serialized.as_slice()))
}

} // verus!
