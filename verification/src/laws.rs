//! Properties that hold across the operations of the library.

use vstd::prelude::*;
use vstd::utf8::{encode_utf8, is_ascii_chars, is_ascii_chars_encode_utf8};

use crate::commitment::commitment_root_result;
use crate::error::Error;
use crate::groth16::{groth16_verdict, proof_decodes, verify_request_result, verifying_key_decodes};
use crate::poseidon::{grain_ark_and_mds, poseidon_native_result, poseidon_pair_digest, standard_poseidon_params};
use crate::field::{
    be_nat, be_bytes, modulus, zeros, lemma_be_bytes_len, lemma_be_nat_leading_zeros, lemma_be_nat_of_be_bytes,
    lemma_pow256_small,
};
use crate::hex::{
    field_hex_string, hex_decodable, hex_decode, hex_digit_value, hex_encode, hex_prefix_stripped,
    is_hex_digit, lower_hex_digit, parse_field_hex,
};

verus! {

/// The lowercase digit of a nibble is an ASCII hex digit, other than `x`,
/// that reads back as the nibble.
proof fn lemma_lower_hex_digit(n: nat)
    requires
        n < 16,
    ensures
        (lower_hex_digit(n) as u8) == lower_hex_digit(n) as nat,
        lower_hex_digit(n) as nat <= 102,
        is_hex_digit(lower_hex_digit(n) as u8),
        hex_digit_value(lower_hex_digit(n) as u8) == n,
        lower_hex_digit(n) as u8 != 120,
{
}

/// Every character of a hex encoding is a lowercase hex digit.
pub proof fn lemma_hex_encode_digits(b: Seq<u8>)
    ensures
        hex_encode(b).len() == 2 * b.len(),
        forall|i: int|
            0 <= i < hex_encode(b).len() ==> is_hex_digit(#[trigger] hex_encode(b)[i] as u8)
                && hex_encode(b)[i] as nat <= 102 && hex_encode(b)[i] != 'x',
{
    let cs = hex_encode(b);
    assert forall|i: int| 0 <= i < cs.len() implies is_hex_digit(#[trigger] cs[i] as u8) && cs[i]
        as nat <= 102 && cs[i] != 'x' by {
        if i % 2 == 0 {
            lemma_lower_hex_digit((b[i / 2] / 16) as nat);
        } else {
            lemma_lower_hex_digit((b[i / 2] % 16) as nat);
        }
    }
}

/// Reading back `0x` and the hex digits of some bytes gives the bytes: the
/// text that `encode_prefixed_hex` writes (a proof, for one), the decoder
/// used for proofs and keys reads as the same bytes.
pub proof fn lemma_prefixed_hex_roundtrip(b: Seq<u8>)
    ensures
        hex_decodable(hex_prefix_stripped(encode_utf8("0x"@ + hex_encode(b)))),
        hex_decode(hex_prefix_stripped(encode_utf8("0x"@ + hex_encode(b)))) == b,
{
    reveal_strlit("0x");
    let e = hex_encode(b);
    lemma_hex_encode_digits(b);
    let cs = "0x"@ + e;
    assert forall|i: int| 0 <= i < cs.len() implies '\0' <= #[trigger] cs[i] <= '\u{7f}' by {
        if i >= 2 {
            assert(cs[i] == e[i - 2]);
        }
    }
    assert(is_ascii_chars(cs));
    is_ascii_chars_encode_utf8(cs);
    let bytes = encode_utf8(cs);
    let d = bytes.subrange(2, bytes.len() as int);
    assert(bytes[0] == 48 && bytes[1] == 120);
    assert forall|i: int| 0 <= i < d.len() implies #[trigger] d[i] == e[i] as u8 by {
        assert(d[i] == bytes[i + 2]);
        assert(cs[i + 2] == e[i]);
    }
    if d.len() >= 2 {
        assert(d[1] != 120);
    }
    assert(hex_prefix_stripped(d) == d);
    assert(hex_prefix_stripped(bytes) == d);
    assert(hex_decodable(d));
    assert forall|i: int| 0 <= i < b.len() implies #[trigger] hex_decode(d)[i] == b[i] by {
        assert(d[2 * i] == e[2 * i] as u8);
        assert(d[2 * i + 1] == e[2 * i + 1] as u8);
        lemma_lower_hex_digit((b[i] / 16) as nat);
        lemma_lower_hex_digit((b[i] % 16) as nat);
    }
    assert(hex_decode(d) =~= b);
}

/// Hex digits written with no prefix read back as the bytes they spell:
/// no `0x` is stripped from them.
pub proof fn lemma_bare_hex_roundtrip(b: Seq<u8>)
    ensures
        hex_prefix_stripped(encode_utf8(hex_encode(b))) == encode_utf8(hex_encode(b)),
        hex_decodable(encode_utf8(hex_encode(b))),
        hex_decode(encode_utf8(hex_encode(b))) == b,
{
    let e = hex_encode(b);
    lemma_hex_encode_digits(b);
    assert forall|i: int| 0 <= i < e.len() implies '\0' <= #[trigger] e[i] <= '\u{7f}' by {}
    assert(is_ascii_chars(e));
    is_ascii_chars_encode_utf8(e);
    let d = encode_utf8(e);
    assert forall|i: int| 0 <= i < d.len() implies #[trigger] d[i] == e[i] as u8 by {}
    if d.len() >= 2 {
        assert(d[1] != 120);
    }
    assert(hex_prefix_stripped(d) == d);
    assert(hex_decodable(d));
    assert forall|i: int| 0 <= i < b.len() implies #[trigger] hex_decode(d)[i] == b[i] by {
        assert(d[2 * i] == e[2 * i] as u8);
        assert(d[2 * i + 1] == e[2 * i + 1] as u8);
        lemma_lower_hex_digit((b[i] / 16) as nat);
        lemma_lower_hex_digit((b[i] % 16) as nat);
    }
    assert(hex_decode(d) =~= b);
}

/// How the hex spelling of any bytes reads as a field element, with or
/// without `0x`: at most 32 bytes whose big-endian value lies below the
/// field order read as that value, whatever their number (a 20-byte
/// address as well as 32 bytes); more than 32 bytes are refused as
/// overflowing; a value at or above the order is refused as out of the
/// field.
pub proof fn lemma_field_hex_reads_any_width(b: Seq<u8>)
    ensures
        b.len() <= 32 && be_nat(b) < modulus() ==> {
            &&& parse_field_hex(encode_utf8(hex_encode(b))) == Ok::<nat, Error>(be_nat(b))
            &&& parse_field_hex(encode_utf8("0x"@ + hex_encode(b))) == Ok::<nat, Error>(be_nat(b))
        },
        b.len() > 32 ==> {
            &&& parse_field_hex(encode_utf8(hex_encode(b))) == Err::<nat, Error>(Error::FieldOverflow)
            &&& parse_field_hex(encode_utf8("0x"@ + hex_encode(b))) == Err::<nat, Error>(
                Error::FieldOverflow,
            )
        },
        b.len() <= 32 && be_nat(b) >= modulus() ==> {
            &&& parse_field_hex(encode_utf8(hex_encode(b))) == Err::<nat, Error>(Error::OutOfField)
            &&& parse_field_hex(encode_utf8("0x"@ + hex_encode(b))) == Err::<nat, Error>(
                Error::OutOfField,
            )
        },
{
    lemma_bare_hex_roundtrip(b);
    lemma_prefixed_hex_roundtrip(b);
}

/// Leading zero bytes do not change what a spelling of at most 32 bytes
/// reads as: a short spelling reads as its left-padded 32-byte form.
pub proof fn lemma_field_hex_zero_padding(b: Seq<u8>, n: nat)
    requires
        b.len() + n <= 32,
    ensures
        parse_field_hex(encode_utf8("0x"@ + hex_encode(zeros(n) + b))) == parse_field_hex(
            encode_utf8("0x"@ + hex_encode(b)),
        ),
        parse_field_hex(encode_utf8(hex_encode(zeros(n) + b))) == parse_field_hex(
            encode_utf8(hex_encode(b)),
        ),
{
    lemma_be_nat_leading_zeros(n, b);
    lemma_field_hex_reads_any_width(b);
    lemma_field_hex_reads_any_width(zeros(n) + b);
}

/// The text written for a field value is `0x` followed by 64 lowercase hex
/// digits.
pub proof fn lemma_field_hex_string_shape(v: nat)
    ensures
        field_hex_string(v).len() == 66,
        field_hex_string(v)[0] == '0',
        field_hex_string(v)[1] == 'x',
        forall|i: int|
            2 <= i < 66 ==> is_hex_digit(#[trigger] field_hex_string(v)[i] as u8)
                && field_hex_string(v)[i] != 'x',
{
    reveal_strlit("0x");
    let b = be_bytes(v, 32);
    lemma_be_bytes_len(v, 32);
    lemma_hex_encode_digits(b);
    let cs = field_hex_string(v);
    assert forall|i: int| 2 <= i < 66 implies is_hex_digit(#[trigger] cs[i] as u8) && cs[i] != 'x' by {
        assert(cs[i] == hex_encode(b)[i - 2]);
    }
}

/// Reading back the text written for a field element gives the element:
/// what `fr_to_hex` writes, `fr_from_hex` reads as the same value.
pub proof fn lemma_field_hex_roundtrip(v: nat)
    requires
        v < modulus(),
    ensures
        parse_field_hex(encode_utf8(field_hex_string(v))) == Ok::<nat, crate::error::Error>(v),
{
    let b = be_bytes(v, 32);
    lemma_be_bytes_len(v, 32);
    lemma_prefixed_hex_roundtrip(b);
    lemma_pow256_small();
    lemma_be_nat_of_be_bytes(v, 32);
}

/// Reading is one to one: strings that read as the same element spell the
/// same integer, and that integer lies below the field order.
pub proof fn lemma_field_hex_one_to_one(s1: Seq<u8>, s2: Seq<u8>)
    requires
        parse_field_hex(s1) is Ok,
        parse_field_hex(s1) == parse_field_hex(s2),
    ensures
        be_nat(hex_decode(hex_prefix_stripped(s1))) == be_nat(hex_decode(hex_prefix_stripped(s2))),
        be_nat(hex_decode(hex_prefix_stripped(s1))) < modulus(),
{
}

/// A leading `0x` does not change what a hex string reads as.
pub proof fn lemma_hex_prefix_optional(s: Seq<u8>)
    ensures
        parse_field_hex(seq![48u8, 120u8] + s) == parse_field_hex(s),
{
    let t = seq![48u8, 120u8] + s;
    assert(t.subrange(2, t.len() as int) =~= s);
}

/// The commitment root does not depend on the order of the two addresses,
/// when both read as field elements.
pub proof fn lemma_commitment_root_symmetric(master: Seq<u8>, sub: Seq<u8>)
    requires
        parse_field_hex(master) is Ok,
        parse_field_hex(sub) is Ok,
    ensures
        commitment_root_result(master, sub) == commitment_root_result(sub, master),
{
}

/// Spellings that read as the same field elements give the same digest
/// and the same commitment root.
pub proof fn lemma_results_depend_on_values(m1: Seq<u8>, m2: Seq<u8>, s1: Seq<u8>, s2: Seq<u8>)
    requires
        parse_field_hex(m1) == parse_field_hex(m2),
        parse_field_hex(s1) == parse_field_hex(s2),
    ensures
        commitment_root_result(m1, s1) == commitment_root_result(m2, s2),
        poseidon_native_result(m1, s1) == poseidon_native_result(m2, s2),
{
}

/// A commitment root, once written, reads back as the field sum of the two
/// addresses: it can be handed on as the root of a proof request.
pub proof fn lemma_commitment_root_reads_back(master: Seq<u8>, sub: Seq<u8>)
    requires
        commitment_root_result(master, sub) is Ok,
    ensures
        parse_field_hex(encode_utf8(commitment_root_result(master, sub)->Ok_0)) == Ok::<nat, Error>(
            (parse_field_hex(master)->Ok_0 + parse_field_hex(sub)->Ok_0) % modulus(),
        ),
{
    let v = (parse_field_hex(master)->Ok_0 + parse_field_hex(sub)->Ok_0) % modulus();
    lemma_field_hex_roundtrip(v);
}


/// Whenever both addresses read as field elements, the commitment root is
/// computed, whatever their size: it is `0x` and 64 hex digits, and it
/// reads back as the sum of the two values modulo the field order.
pub proof fn lemma_commitment_root_total(master: Seq<u8>, sub: Seq<u8>)
    requires
        parse_field_hex(master) is Ok,
        parse_field_hex(sub) is Ok,
    ensures
        commitment_root_result(master, sub) is Ok,
        commitment_root_result(master, sub)->Ok_0.len() == 66,
        parse_field_hex(encode_utf8(commitment_root_result(master, sub)->Ok_0)) == Ok::<nat, Error>(
            (parse_field_hex(master)->Ok_0 + parse_field_hex(sub)->Ok_0) % modulus(),
        ),
{
    let v = (parse_field_hex(master)->Ok_0 + parse_field_hex(sub)->Ok_0) % modulus();
    lemma_field_hex_string_shape(v);
    lemma_field_hex_roundtrip(v);
}

/// A Poseidon digest, once written, reads back as the digest, which
/// `compute_poseidon_native` states to be below the modulus.
pub proof fn lemma_poseidon_digest_reads_back(master: Seq<u8>, sub: Seq<u8>)
    requires
        poseidon_native_result(master, sub) is Ok,
        poseidon_pair_digest(
            standard_poseidon_params(),
            parse_field_hex(master)->Ok_0,
            parse_field_hex(sub)->Ok_0,
        ) < modulus(),
    ensures
        parse_field_hex(encode_utf8(poseidon_native_result(master, sub)->Ok_0)) == Ok::<nat, Error>(
            poseidon_pair_digest(
                standard_poseidon_params(),
                parse_field_hex(master)->Ok_0,
                parse_field_hex(sub)->Ok_0,
            ),
        ),
{
    lemma_field_hex_roundtrip(
        poseidon_pair_digest(
            standard_poseidon_params(),
            parse_field_hex(master)->Ok_0,
            parse_field_hex(sub)->Ok_0,
        ),
    );
}

/// A leading `0x` on the proof, on the root or on the verifying key does
/// not change what a verification request answers.
pub proof fn lemma_verify_prefix_optional(proof: Seq<u8>, root: Seq<u8>, iat: u64, exp: u64, vk: Seq<u8>)
    ensures
        verify_request_result(seq![48u8, 120u8] + proof, seq![48u8, 120u8] + root, iat, exp, seq![48u8, 120u8] + vk)
            == verify_request_result(proof, root, iat, exp, vk),
{
    lemma_hex_prefix_optional(root);
    let p = seq![48u8, 120u8] + proof;
    assert(p.subrange(2, p.len() as int) =~= proof);
    let k = seq![48u8, 120u8] + vk;
    assert(k.subrange(2, k.len() as int) =~= vk);
}

/// What a verification request answers once the proof and the key decode
/// and the verifier gave the verdict `verdict` on the public inputs.
pub open spec fn verdict_answer(verdict: Option<bool>) -> Result<bool, Error> {
    match verdict {
        Some(ok) => Ok(ok),
        None => Err(Error::VerificationCrash),
    }
}

/// The verifier is handed the value of the root itself, however large and
/// however spelled, then the expiry and then the issue time: once the
/// proof and the verifying key decode, a request whose root is the hex of
/// some bytes, with or without `0x`, of value below the field order is
/// answered by the verdict on exactly that value.
pub proof fn lemma_verify_hands_root_value(proof: Seq<u8>, b: Seq<u8>, iat: u64, exp: u64, vk: Seq<u8>)
    requires
        b.len() <= 32,
        be_nat(b) < modulus(),
        hex_decodable(hex_prefix_stripped(proof)),
        proof_decodes(hex_decode(hex_prefix_stripped(proof))),
        hex_decodable(hex_prefix_stripped(vk)),
        verifying_key_decodes(hex_decode(hex_prefix_stripped(vk))),
    ensures
        verify_request_result(proof, encode_utf8(hex_encode(b)), iat, exp, vk) == verdict_answer(
            groth16_verdict(
                hex_decode(hex_prefix_stripped(vk)),
                seq![be_nat(b), exp as nat, iat as nat],
                hex_decode(hex_prefix_stripped(proof)),
            ),
        ),
        verify_request_result(proof, encode_utf8("0x"@ + hex_encode(b)), iat, exp, vk) == verdict_answer(
            groth16_verdict(
                hex_decode(hex_prefix_stripped(vk)),
                seq![be_nat(b), exp as nat, iat as nat],
                hex_decode(hex_prefix_stripped(proof)),
            ),
        ),
{
    lemma_field_hex_reads_any_width(b);
}

/// A commitment root, handed on to a verification request, reaches the
/// verifier as the field sum of the two addresses.
pub proof fn lemma_verify_commitment_root(
    proof: Seq<u8>,
    master: Seq<u8>,
    sub: Seq<u8>,
    iat: u64,
    exp: u64,
    vk: Seq<u8>,
)
    requires
        parse_field_hex(master) is Ok,
        parse_field_hex(sub) is Ok,
        hex_decodable(hex_prefix_stripped(proof)),
        proof_decodes(hex_decode(hex_prefix_stripped(proof))),
        hex_decodable(hex_prefix_stripped(vk)),
        verifying_key_decodes(hex_decode(hex_prefix_stripped(vk))),
    ensures
        verify_request_result(proof, encode_utf8(commitment_root_result(master, sub)->Ok_0), iat, exp, vk)
            == verdict_answer(
            groth16_verdict(
                hex_decode(hex_prefix_stripped(vk)),
                seq![
                    (parse_field_hex(master)->Ok_0 + parse_field_hex(sub)->Ok_0) % modulus(),
                    exp as nat,
                    iat as nat,
                ],
                hex_decode(hex_prefix_stripped(proof)),
            ),
        ),
{
    lemma_commitment_root_total(master, sub);
}

/// Roots that read as the same field element get the same answer, for
/// the same proof, times and key.
pub proof fn lemma_verify_depends_on_root_value(
    proof: Seq<u8>,
    root1: Seq<u8>,
    root2: Seq<u8>,
    iat: u64,
    exp: u64,
    vk: Seq<u8>,
)
    requires
        parse_field_hex(root1) == parse_field_hex(root2),
    ensures
        verify_request_result(proof, root1, iat, exp, vk) == verify_request_result(proof, root2, iat, exp, vk),
{
}

/// The Poseidon parameters are the Grain LFSR's round keys and matrix for
/// 254-bit primes at rate 3, 8 full and 57 partial rounds and 5 skipped
/// matrices, used as the generator returns them, with S-box exponent 5
/// and rate 2.
pub proof fn lemma_poseidon_params_from_grain()
    ensures
        standard_poseidon_params().ark == grain_ark_and_mds(254, 3, 8, 57, 5).0,
        standard_poseidon_params().mds == grain_ark_and_mds(254, 3, 8, 57, 5).1,
        standard_poseidon_params().full_rounds == 8,
        standard_poseidon_params().partial_rounds == 57,
        standard_poseidon_params().alpha == 5,
        standard_poseidon_params().rate == 2,
{
}

/// Whenever both inputs read as field elements, a Poseidon digest is
/// computed, whatever their size: `0x` and 64 hex digits of the digest of
/// the two values, absorbed in the order given, under the standard
/// parameters.
pub proof fn lemma_poseidon_total(master: Seq<u8>, sub: Seq<u8>)
    requires
        parse_field_hex(master) is Ok,
        parse_field_hex(sub) is Ok,
    ensures
        poseidon_native_result(master, sub) is Ok,
        poseidon_native_result(master, sub)->Ok_0.len() == 66,
        poseidon_native_result(master, sub)->Ok_0 == field_hex_string(
            poseidon_pair_digest(
                standard_poseidon_params(),
                parse_field_hex(master)->Ok_0,
                parse_field_hex(sub)->Ok_0,
            ),
        ),
{
    lemma_field_hex_string_shape(
        poseidon_pair_digest(
            standard_poseidon_params(),
            parse_field_hex(master)->Ok_0,
            parse_field_hex(sub)->Ok_0,
        ),
    );
}

} // verus!
