use identifi_core::commitment::compute_commitment_root_wasm;
use identifi_core::error::Error;
use identifi_core::field::Fr;
use identifi_core::hex::{decode_prefixed_hex, encode_prefixed_hex, fr_from_hex, fr_to_hex, strip_hex_prefix};

const R_MINUS_ONE: &str = "0x30644e72e131a029b85045b68181585d2833e84879b9709143e1f593f0000000";

#[test]
fn commitment_root_of_small_values() {
    assert_eq!(
        compute_commitment_root_wasm("0x01", "0x02").unwrap(),
        "0x0000000000000000000000000000000000000000000000000000000000000003"
    );
}

#[test]
fn commitment_root_wraps_modulo_the_field_order() {
    assert_eq!(
        compute_commitment_root_wasm(R_MINUS_ONE, "0x02").unwrap(),
        "0x0000000000000000000000000000000000000000000000000000000000000001"
    );
}

#[test]
fn commitment_root_mixed_case_and_prefixes() {
    assert_eq!(
        compute_commitment_root_wasm("1234", "0xABCDEF").unwrap(),
        "0x0000000000000000000000000000000000000000000000000000000000abe023"
    );
}

#[test]
fn commitment_root_is_symmetric() {
    let a = "0x2a9f0e11";
    let b = "0x0077aa";
    assert_eq!(
        compute_commitment_root_wasm(a, b).unwrap(),
        compute_commitment_root_wasm(b, a).unwrap()
    );
}

#[test]
fn empty_digits_read_as_zero() {
    assert_eq!(
        compute_commitment_root_wasm("", "0x").unwrap(),
        "0x0000000000000000000000000000000000000000000000000000000000000000"
    );
}

#[test]
fn repeated_prefixes_are_all_dropped() {
    assert_eq!(
        compute_commitment_root_wasm("0x0x0x05", "0x00").unwrap(),
        "0x0000000000000000000000000000000000000000000000000000000000000005"
    );
}

#[test]
fn bad_hex_is_refused() {
    assert_eq!(compute_commitment_root_wasm("0xzz", "0x01"), Err(Error::HexDecode));
    assert_eq!(compute_commitment_root_wasm("0x01", "0x123"), Err(Error::HexDecode));
}

#[test]
fn more_than_32_bytes_overflow() {
    let long = format!("0x{}", "00".repeat(33));
    assert_eq!(compute_commitment_root_wasm(&long, "0x01"), Err(Error::FieldOverflow));
}

#[test]
fn first_input_error_comes_first() {
    let long = format!("0x{}", "00".repeat(33));
    assert_eq!(compute_commitment_root_wasm("0xzz", &long), Err(Error::HexDecode));
    assert_eq!(compute_commitment_root_wasm(&long, "0xzz"), Err(Error::FieldOverflow));
}

#[test]
fn values_at_or_above_the_field_order_are_refused() {
    let all_ones = format!("0x{}", "ff".repeat(32));
    assert_eq!(fr_from_hex(&all_ones).err(), Some(Error::OutOfField));
    let modulus = "0x30644e72e131a029b85045b68181585d2833e84879b9709143e1f593f0000001";
    assert_eq!(fr_from_hex(modulus).err(), Some(Error::OutOfField));
    assert_eq!(compute_commitment_root_wasm(modulus, "0x01"), Err(Error::OutOfField));
    let top = fr_from_hex(R_MINUS_ONE).unwrap();
    assert_eq!(
        top.limbs(),
        [0x43e1f593f0000000, 0x2833e84879b97091, 0xb85045b68181585d, 0x30644e72e131a029]
    );
}

#[test]
fn distinct_values_read_as_distinct_elements() {
    let zero = fr_from_hex("0x00").unwrap();
    let modulus = "0x30644e72e131a029b85045b68181585d2833e84879b9709143e1f593f0000001";
    assert_eq!(zero.limbs(), [0, 0, 0, 0]);
    assert!(fr_from_hex(modulus).is_err());
}

#[test]
fn written_text_reads_back() {
    for text in ["0x01", R_MINUS_ONE, "0xdeadbeef", "0x00"] {
        let x = fr_from_hex(text).unwrap();
        let y = fr_from_hex(&fr_to_hex(&x)).unwrap();
        assert_eq!(x.limbs(), y.limbs());
    }
}

#[test]
fn field_addition_and_bytes() {
    let a = Fr::from_u64(u64::MAX);
    let b = Fr::from_u64(1);
    let s = a.add(&b);
    assert_eq!(s.limbs(), [0, 1, 0, 0]);
    let bytes = s.to_bytes_be();
    assert_eq!(bytes.len(), 32);
    assert_eq!(bytes[23], 1);
    assert!(bytes.iter().enumerate().all(|(i, b)| i == 23 || *b == 0));
}

#[test]
fn canonical_bytes_only() {
    let r = fr_from_hex(R_MINUS_ONE).unwrap().add(&Fr::from_u64(1));
    assert_eq!(r.limbs(), [0, 0, 0, 0]);
    let mut bytes = [0u8; 32];
    let modulus = hex_bytes("30644e72e131a029b85045b68181585d2833e84879b9709143e1f593f0000001");
    bytes.copy_from_slice(&modulus);
    assert!(Fr::from_be_bytes_canonical(&bytes).is_none());
    bytes[31] = 0;
    assert_eq!(
        Fr::from_be_bytes_canonical(&bytes).unwrap().limbs(),
        [0x43e1f593f0000000, 0x2833e84879b97091, 0xb85045b68181585d, 0x30644e72e131a029]
    );
}

#[test]
fn zeroize_clears_an_element() {
    let mut x = fr_from_hex("0xabcdef").unwrap();
    x.zeroize();
    assert_eq!(x.limbs(), [0, 0, 0, 0]);
}

#[test]
fn prefix_stripping_and_hex_codecs() {
    assert_eq!(strip_hex_prefix(b"0x0xab"), b"ab");
    assert_eq!(strip_hex_prefix(b"0"), b"0");
    assert_eq!(decode_prefixed_hex("0xA0b1"), Some(vec![0xa0, 0xb1]));
    assert_eq!(decode_prefixed_hex("0xA0b"), None);
    assert_eq!(encode_prefixed_hex(&[0x00, 0xff, 0x1a]), "0x00ff1a");
}

fn hex_bytes(s: &str) -> Vec<u8> {
    decode_prefixed_hex(s).unwrap()
}

#[test]
fn prefixed_hex_reads_back_as_the_same_bytes() {
    let bytes: Vec<u8> = (0u8..=255).collect();
    let text = encode_prefixed_hex(&bytes);
    assert_eq!(text.len(), 2 + 2 * bytes.len());
    assert_eq!(decode_prefixed_hex(&text), Some(bytes));
    assert_eq!(decode_prefixed_hex(&encode_prefixed_hex(&[])), Some(vec![]));
}

#[test]
fn a_leading_prefix_is_optional() {
    for digits in ["0a", "ffff", "", "0x12"] {
        let with = format!("0x{}", digits);
        assert_eq!(
            compute_commitment_root_wasm(&with, "0x01"),
            compute_commitment_root_wasm(digits, "0x01")
        );
    }
}
