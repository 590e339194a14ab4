//! Hex encodings of byte strings and field elements, with the optional
//! `0x` prefix that callers may put in front.

use vstd::prelude::*;
use vstd::slice::slice_subrange;
use vstd::string::StringSliceAdditionalSpecFns;
use vstd::string::StringExecFns;

use crate::error::Error;
use crate::field::{be_bytes, be_nat, modulus, zeros, lemma_be_nat_leading_zeros, Fr};
use crate::wipe::{wipe_byte_array, wipe_byte_vec};

verus! {

/// ASCII `0`-`9`, `a`-`f` or `A`-`F`.
pub open spec fn is_hex_digit(c: u8) -> bool {
    (48 <= c <= 57) || (97 <= c <= 102) || (65 <= c <= 70)
}

/// The value of a hex digit.
pub open spec fn hex_digit_value(c: u8) -> nat {
    if 48 <= c <= 57 {
        (c - 48) as nat
    } else if 97 <= c <= 102 {
        (c - 87) as nat
    } else {
        (c - 55) as nat
    }
}

/// An even number of hex digits.
pub open spec fn hex_decodable(s: Seq<u8>) -> bool {
    &&& s.len() % 2 == 0
    &&& forall|i: int| 0 <= i < s.len() ==> is_hex_digit(#[trigger] s[i])
}

/// The bytes that a string of hex digits spells, two digits per byte, the
/// high nibble first.
pub open spec fn hex_decode(s: Seq<u8>) -> Seq<u8> {
    Seq::new(
        s.len() / 2,
        |i: int| (hex_digit_value(s[2 * i]) * 16 + hex_digit_value(s[2 * i + 1])) as u8,
    )
}

/// The string with every leading `0x` removed, one pair after the other.
pub open spec fn hex_prefix_stripped(s: Seq<u8>) -> Seq<u8>
    decreases s.len(),
{
    if s.len() >= 2 && s[0] == 48 && s[1] == 120 {
        hex_prefix_stripped(s.subrange(2, s.len() as int))
    } else {
        s
    }
}

/// The lowercase hex digit of a value below 16.
pub open spec fn lower_hex_digit(n: nat) -> char {
    if n < 10 {
        (48 + n) as char
    } else {
        (87 + n) as char
    }
}

/// Two lowercase hex digits per byte, the high nibble first.
pub open spec fn hex_encode(b: Seq<u8>) -> Seq<char> {
    Seq::new(
        2 * b.len(),
        |i: int|
            if i % 2 == 0 {
                lower_hex_digit((b[i / 2] / 16) as nat)
            } else {
                lower_hex_digit((b[i / 2] % 16) as nat)
            },
    )
}

/// What reading a field element from hex gives: the value of the digits
/// after the `0x` prefixes, if they spell at most 32 bytes and that value
/// lies below the field order. Each element has one value, so distinct
/// values are never read as the same element.
pub open spec fn parse_field_hex(s: Seq<u8>) -> Result<nat, Error> {
    let digits = hex_prefix_stripped(s);
    if !hex_decodable(digits) {
        Err(Error::HexDecode)
    } else if hex_decode(digits).len() > 32 {
        Err(Error::FieldOverflow)
    } else if be_nat(hex_decode(digits)) >= modulus() {
        Err(Error::OutOfField)
    } else {
        Ok(be_nat(hex_decode(digits)))
    }
}

/// `0x` followed by the 64 lowercase hex digits of the 32-byte big-endian
/// encoding of a field value.
pub open spec fn field_hex_string(v: nat) -> Seq<char> {
    "0x"@ + hex_encode(be_bytes(v, 32))
}

/// Views a string result as its characters.
pub open spec fn string_result_view(r: Result<String, Error>) -> Result<Seq<char>, Error> {
    match r {
        Ok(s) => Ok(s@),
        Err(e) => Err(e),
    }
}

/// Calls `hex::decode`, which fails on an odd length or on a byte that is
/// not a hex digit, and otherwise turns each pair of digits into a byte;
/// claims exactly that.
#[verifier::external_body]
fn decode_hex_digits(data: &[u8]) -> (r: Option<Vec<u8>>)
    ensures
        r is Some <==> hex_decodable(data@),
        r matches Some(v) ==> v@ == hex_decode(data@),
{
    hex::decode(data).ok()
}

/// Calls `hex::encode`, which writes two lowercase hex digits per byte;
/// claims exactly that.
#[verifier::external_body]
fn encode_hex_digits(data: &[u8]) -> (r: String)
    ensures
        r@ == hex_encode(data@),
{
    hex::encode(data)
}

/// Drops every leading `0x` pair.
pub fn strip_hex_prefix(s: &[u8]) -> (r: &[u8])
    ensures
        r@ == hex_prefix_stripped(s@),
{
    let mut k: usize = 0;
    proof {
        assert(s@.subrange(0, s@.len() as int) =~= s@);
    }
    while 2 <= s.len() - k && s[k] == 48 && s[k + 1] == 120
        invariant
            k <= s@.len(),
            hex_prefix_stripped(s@) == hex_prefix_stripped(s@.subrange(k as int, s@.len() as int)),
        decreases s@.len() - k,
    {
        proof {
            let rest = s@.subrange(k as int, s@.len() as int);
            assert(rest.subrange(2, rest.len() as int) =~= s@.subrange(k + 2, s@.len() as int));
        }
        k = k + 2;
    }
    slice_subrange(s, k, s.len())
}

/// Decodes the hex digits that follow the `0x` prefixes of `s`.
pub fn decode_prefixed_hex(s: &str) -> (r: Option<Vec<u8>>)
    ensures
        r is Some <==> hex_decodable(hex_prefix_stripped(s.spec_bytes())),
        r matches Some(v) ==> v@ == hex_decode(hex_prefix_stripped(s.spec_bytes())),
{
    decode_hex_digits(strip_hex_prefix(s.as_bytes()))
}

/// `0x` followed by the lowercase hex digits of the bytes.
pub fn encode_prefixed_hex(bytes: &[u8]) -> (r: String)
    ensures
        r@ == "0x"@ + hex_encode(bytes@),
{
    let digits = encode_hex_digits(bytes);
    let mut out = String::from_str("0x");
    out.append(digits.as_str());
    out
}

/// Reads a field element from hex: drops the `0x` prefixes, decodes the
/// digits, accepts at most 32 bytes, reads them in big-endian order and
/// refuses a value at or above the field order, so that the reading is
/// one to one. The decoded buffers are wiped.
pub fn fr_from_hex(hex_str: &str) -> (r: Result<Fr, Error>)
    ensures
        match r {
            Ok(f) => parse_field_hex(hex_str.spec_bytes()) == Ok::<nat, Error>(f@),
            Err(e) => parse_field_hex(hex_str.spec_bytes()) == Err::<nat, Error>(e),
        },
{
    let mut bytes = match decode_prefixed_hex(hex_str) {
        Some(b) => b,
        None => return Err(Error::HexDecode),
    };
    let ghost decoded = bytes@;
    let mut padded = [0u8; 32];
    if bytes.len() <= 32 {
        let start = 32 - bytes.len();
        let mut i: usize = 0;
        while i < bytes.len()
            invariant
                start + bytes@.len() == 32,
                i <= bytes@.len(),
                forall|j: int| 0 <= j < start ==> padded[j] == 0,
                forall|j: int| start <= j < start + i ==> padded[j] == bytes@[j - start],
                forall|j: int| start + i <= j < 32 ==> padded[j] == 0,
            decreases bytes@.len() - i,
        {
            padded[start + i] = bytes[i];
            i = i + 1;
        }
        proof {
            assert(padded@ =~= zeros(start as nat) + bytes@);
            lemma_be_nat_leading_zeros(start as nat, bytes@);
        }
    } else {
        wipe_byte_vec(&mut bytes);
        return Err(Error::FieldOverflow);
    }
    wipe_byte_vec(&mut bytes);
    let field_element = Fr::from_be_bytes_canonical(&padded);
    wipe_byte_array(&mut padded);
    match field_element {
        Some(x) => Ok(x),
        None => Err(Error::OutOfField),
    }
}


/// Writes a field element as `0x` and the hex digits of its 32 big-endian
/// bytes.
pub fn fr_to_hex(x: &Fr) -> (r: String)
    ensures
        r@ == field_hex_string(x@),
{
    let be = x.to_bytes_be();
    encode_prefixed_hex(be.as_slice())
}

} // verus!
