use ark_bn254::{Bn254, Fr as ArkFr};
use ark_groth16::Groth16;
use ark_r1cs_std::fields::fp::FpVar;
use ark_r1cs_std::alloc::AllocVar;
use ark_r1cs_std::eq::EqGadget;
use ark_relations::r1cs::{ConstraintSynthesizer, ConstraintSystemRef, SynthesisError};
use ark_serialize::CanonicalSerialize;
use ark_snark::{CircuitSpecificSetupSNARK, SNARK};
use ark_std::rand::rngs::StdRng;
use ark_std::rand::SeedableRng;

use identifi_core::circuit::IdentiFIClusterCircuit;
use identifi_core::commitment::compute_commitment_root_wasm;
use identifi_core::error::Error;
use identifi_core::field::Fr;
use identifi_core::groth16::{client_generate_proof, client_verify_proof, ProofHandle, ProverInput};

/// A small circuit over the same public inputs: the root is the sum of the
/// two addresses and the expiry follows the issue time.
struct SumCircuit(IdentiFIClusterCircuit);

fn to_ark(x: Option<Fr>) -> Result<ArkFr, SynthesisError> {
    x.map(|v| ArkFr::from(ark_ff::BigInt::new(v.limbs()))).ok_or(SynthesisError::AssignmentMissing)
}

impl ConstraintSynthesizer<ArkFr> for SumCircuit {
    fn generate_constraints(self, cs: ConstraintSystemRef<ArkFr>) -> Result<(), SynthesisError> {
        let c = &self.0;
        let root = FpVar::new_input(cs.clone(), || to_ark(c.commitment_root))?;
        let exp = FpVar::new_input(cs.clone(), || to_ark(c.timestamp_exp))?;
        let iat = FpVar::new_input(cs.clone(), || to_ark(c.timestamp_iat))?;
        let master = FpVar::new_witness(cs.clone(), || to_ark(c.master_address))?;
        let sub = FpVar::new_witness(cs.clone(), || to_ark(c.sub_wallet_address))?;
        exp.enforce_cmp(&iat, std::cmp::Ordering::Greater, false)?;
        (master + sub).enforce_equal(&root)?;
        Ok(())
    }
}

fn dummy_circuit() -> IdentiFIClusterCircuit {
    let z = Fr::from_u64(0);
    IdentiFIClusterCircuit {
        master_address: Some(z),
        sub_wallet_address: Some(z),
        commitment_root: Some(z),
        timestamp_exp: Some(Fr::from_u64(2)),
        timestamp_iat: Some(Fr::from_u64(1)),
        path_elements: vec![Some(z); 4],
        path_indices: vec![Some(false); 4],
    }
}

fn keys() -> (String, String) {
    let mut rng = StdRng::seed_from_u64(7);
    let (pk, vk) = Groth16::<Bn254>::setup(SumCircuit(dummy_circuit()), &mut rng).unwrap();
    let mut pk_bytes = Vec::new();
    pk.serialize_compressed(&mut pk_bytes).unwrap();
    let mut vk_bytes = Vec::new();
    vk.serialize_compressed(&mut vk_bytes).unwrap();
    (format!("0x{}", hex::encode(pk_bytes)), hex::encode(vk_bytes))
}

fn prove_sum(input: ProverInput) -> Option<ProofHandle> {
    let mut rng = StdRng::from_seed(input.seed);
    Groth16::<Bn254>::prove(&input.proving_key.handle().key, SumCircuit(input.circuit), &mut rng)
        .ok()
        .map(|proof| ProofHandle { proof })
}

fn path() -> Vec<Option<String>> {
    vec![Some("0x01".to_string()), Some("0x02".to_string()), Some("03".to_string()), Some("0x04".to_string())]
}

#[test]
fn proof_round_trip_accepts_the_right_root_only() {
    let (pk_hex, vk_hex) = keys();
    let root = compute_commitment_root_wasm("0x05", "0x07").unwrap();
    let proof = client_generate_proof(
        "0x05", "0x07", &root, 100, 200, path(), vec![1, 0, 1, 0], &pk_hex, prove_sum,
    )
    .unwrap();
    assert!(proof.starts_with("0x"));
    assert_eq!(proof.len(), 2 + 2 * 128);
    assert_eq!(
        client_verify_proof(&proof[2..], &root[2..], 100, 200, &format!("0x{}", vk_hex)),
        Ok(true)
    );
    assert_eq!(client_verify_proof(&proof, &root, 100, 200, &vk_hex), Ok(true));
    assert_eq!(client_verify_proof(&proof, "0x0d", 100, 200, &vk_hex), Ok(false));
    assert_eq!(client_verify_proof(&proof, &root, 100, 201, &vk_hex), Ok(false));
}

#[test]
fn the_prover_sees_the_parsed_request() {
    let (pk_hex, _) = keys();
    let seen = std::cell::RefCell::new(None);
    let r = client_generate_proof(
        "0x05", "0x07", "0x0c", 10, 20, path(), vec![1, 0, 0, 9], &pk_hex,
        |input: ProverInput| {
            let c = &input.circuit;
            *seen.borrow_mut() = Some((
                c.master_address.unwrap().limbs(),
                c.timestamp_exp.unwrap().limbs(),
                c.path_elements.iter().map(|x| x.unwrap().limbs()[0]).collect::<Vec<u64>>(),
                c.path_indices.clone(),
            ));
            None
        },
    );
    assert_eq!(r, Err(Error::ProvingFailed));
    let (m, e, p, d) = seen.into_inner().unwrap();
    assert_eq!(m, [5, 0, 0, 0]);
    assert_eq!(e, [20, 0, 0, 0]);
    assert_eq!(p, vec![1, 2, 3, 4]);
    assert_eq!(d, vec![Some(true), Some(false), Some(false), Some(true)]);
}

#[test]
fn proof_request_errors_in_order() {
    let never = |_: ProverInput| -> Option<ProofHandle> { panic!("the prover must not run") };
    assert_eq!(
        client_generate_proof("0xzz", "0x01", "0x02", 1, 2, path(), vec![0; 4], "00", never),
        Err(Error::HexDecode)
    );
    let mut bad_path = path();
    bad_path[1] = None;
    assert_eq!(
        client_generate_proof("0x01", "0x01", "0x02", 1, 2, bad_path, vec![0; 4], "00", never),
        Err(Error::InvalidPathElementStr)
    );
    let mut bad_hex = path();
    bad_hex[2] = Some("0xg0".to_string());
    assert_eq!(
        client_generate_proof("0x01", "0x01", "0x02", 1, 2, bad_hex, vec![0; 4], "00", never),
        Err(Error::HexDecode)
    );
    let mut short = path();
    short.pop();
    assert_eq!(
        client_generate_proof("0x01", "0x01", "0x02", 1, 2, short, vec![0; 4], "00", never),
        Err(Error::MerklePathDepth)
    );
    assert_eq!(
        client_generate_proof("0x01", "0x01", "0x02", 1, 2, path(), vec![0; 5], "00", never),
        Err(Error::MerklePathDepth)
    );
    assert_eq!(
        client_generate_proof("0x01", "0x01", "0x02", 1, 2, path(), vec![0; 4], "0xzz", never),
        Err(Error::InvalidPkHex)
    );
    assert_eq!(
        client_generate_proof("0x01", "0x01", "0x02", 1, 2, path(), vec![0; 4], "0x00", never),
        Err(Error::DeserializePk)
    );
}

#[test]
fn verify_request_errors_in_order() {
    let (pk_hex, vk_hex) = keys();
    let root = compute_commitment_root_wasm("0x05", "0x07").unwrap();
    let proof = client_generate_proof(
        "0x05", "0x07", &root, 1, 2, path(), vec![0; 4], &pk_hex, prove_sum,
    )
    .unwrap();
    assert_eq!(client_verify_proof("zz", "0xzz", 1, 2, "zz"), Err(Error::HexDecode));
    assert_eq!(client_verify_proof("zz", &root, 1, 2, "zz"), Err(Error::InvalidProofHex));
    assert_eq!(client_verify_proof("0x00", &root, 1, 2, "zz"), Err(Error::DeserializeProof));
    assert_eq!(client_verify_proof(&proof, &root, 1, 2, "zz"), Err(Error::InvalidVkHex));
    assert_eq!(client_verify_proof(&proof, &root, 1, 2, "0x00"), Err(Error::DeserializeVk));
    assert_eq!(client_verify_proof(&proof, &root, 1, 2, &vk_hex), Ok(true));
}

#[test]
fn circuit_path_steps_and_wiping() {
    let mut c = dummy_circuit();
    c.path_elements[2] = Some(Fr::from_u64(9));
    c.path_indices[2] = Some(true);
    let (e, d) = c.path_step(2).unwrap();
    assert_eq!(e.limbs(), [9, 0, 0, 0]);
    assert!(d);
    assert!(c.path_step(4).is_none());
    c.path_indices[1] = None;
    assert!(c.path_step(1).is_none());
    c.zeroize_private();
    assert!(c.master_address.is_none());
    assert!(c.sub_wallet_address.is_none());
    assert!(c.path_elements.is_empty());
    assert_eq!(c.path_indices.len(), 4);
    assert_eq!(c.timestamp_exp.unwrap().limbs(), [2, 0, 0, 0]);
}

/// A circuit with one public input only.
struct OneInput;

impl ConstraintSynthesizer<ArkFr> for OneInput {
    fn generate_constraints(self, cs: ConstraintSystemRef<ArkFr>) -> Result<(), SynthesisError> {
        let x = FpVar::new_input(cs.clone(), || Ok(ArkFr::from(1u64)))?;
        let y = FpVar::new_witness(cs.clone(), || Ok(ArkFr::from(1u64)))?;
        x.enforce_equal(&y)?;
        Ok(())
    }
}

#[test]
fn a_key_for_other_inputs_crashes_the_verifier() {
    let (pk_hex, _) = keys();
    let root = compute_commitment_root_wasm("0x05", "0x07").unwrap();
    let proof = client_generate_proof(
        "0x05", "0x07", &root, 1, 2, path(), vec![0; 4], &pk_hex, prove_sum,
    )
    .unwrap();
    let mut rng = StdRng::seed_from_u64(3);
    let (_, vk) = Groth16::<Bn254>::setup(OneInput, &mut rng).unwrap();
    let mut vk_bytes = Vec::new();
    vk.serialize_compressed(&mut vk_bytes).unwrap();
    assert_eq!(
        client_verify_proof(&proof, &root, 1, 2, &hex::encode(vk_bytes)),
        Err(Error::VerificationCrash)
    );
}
