use identifi_core::error::Error;
use identifi_core::poseidon::{compute_poseidon_native, get_poseidon_config};

#[test]
fn poseidon_config_dimensions() {
    let c = get_poseidon_config();
    assert_eq!(c.full_rounds, 8);
    assert_eq!(c.partial_rounds, 57);
    assert_eq!(c.alpha, 5);
    assert_eq!(c.rate, 2);
    assert_eq!(c.capacity, 2);
    assert_eq!(c.ark.len(), 65);
    assert!(c.ark.iter().all(|row| row.len() == 4));
    assert_eq!(c.mds.len(), 4);
    assert!(c.mds.iter().all(|row| row.len() == 4));
}

#[test]
fn poseidon_digest_is_a_field_hex_string() {
    let d = compute_poseidon_native("0x01", "0x02").unwrap();
    assert_eq!(d.len(), 66);
    assert!(d.starts_with("0x"));
    assert!(d[2..].chars().all(|c| c.is_ascii_hexdigit() && !c.is_ascii_uppercase()));
    assert_ne!(d, "0x0000000000000000000000000000000000000000000000000000000000000001");
    assert_ne!(d, "0x0000000000000000000000000000000000000000000000000000000000000002");
}

#[test]
fn poseidon_digest_depends_on_values_not_spelling() {
    let a = compute_poseidon_native("0x01", "0x02").unwrap();
    let b = compute_poseidon_native("01", "0x0002").unwrap();
    assert_eq!(a, b);
}

#[test]
fn poseidon_digest_depends_on_order_and_inputs() {
    let a = compute_poseidon_native("0x01", "0x02").unwrap();
    let b = compute_poseidon_native("0x02", "0x01").unwrap();
    let c = compute_poseidon_native("0x01", "0x03").unwrap();
    assert_ne!(a, b);
    assert_ne!(a, c);
}

#[test]
fn poseidon_refuses_bad_inputs() {
    assert_eq!(compute_poseidon_native("0xq1", "0x02"), Err(Error::HexDecode));
    let long = format!("0x{}", "11".repeat(40));
    assert_eq!(compute_poseidon_native("0x01", &long), Err(Error::FieldOverflow));
}

#[test]
fn error_codes() {
    let all = [
        (Error::HexDecode, "ERR_HEX_DECODE"),
        (Error::FieldOverflow, "ERR_FIELD_OVERFLOW"),
        (Error::OutOfField, "ERR_FIELD_OUT_OF_RANGE"),
        (Error::SqueezeFailed, "ERR_SQUEEZE_FAILED"),
        (Error::InvalidPathElementStr, "ERR_INVALID_PATH_ELEMENT_STR"),
        (Error::MerklePathDepth, "ERR_MERKLE_PATH_DEPTH_MUST_BE_4"),
        (Error::InvalidPkHex, "ERR_INVALID_PK_HEX"),
        (Error::DeserializePk, "ERR_DESERIALIZE_PK"),
        (Error::EntropyFailed, "ERR_ENTROPY_FAILED"),
        (Error::ProvingFailed, "ERR_PROVING_FAILED"),
        (Error::SerializeProof, "ERR_SERIALIZE_PROOF"),
        (Error::InvalidProofHex, "ERR_INVALID_PROOF_HEX"),
        (Error::DeserializeProof, "ERR_DESERIALIZE_PROOF"),
        (Error::InvalidVkHex, "ERR_INVALID_VK_HEX"),
        (Error::DeserializeVk, "ERR_DESERIALIZE_VK"),
        (Error::VerificationCrash, "ERR_VERIFICATION_CRASH"),
    ];
    for (e, code) in all {
        assert_eq!(e.code(), code);
    }
}
