//! The commitment root of an identity pair: the field sum of the master
//! address and the sub-wallet address.

use vstd::prelude::*;
use vstd::string::StringSliceAdditionalSpecFns;

use crate::error::Error;
use crate::field::modulus;
use crate::hex::{fr_from_hex, fr_to_hex, field_hex_string, parse_field_hex, string_result_view};

verus! {

/// What the commitment root of two hex-encoded field elements is: the first
/// parse error, or the hex string of their sum in the field.
pub open spec fn commitment_root_result(master: Seq<u8>, sub: Seq<u8>) -> Result<Seq<char>, Error> {
    match parse_field_hex(master) {
        Err(e) => Err(e),
        Ok(a) => match parse_field_hex(sub) {
            Err(e) => Err(e),
            Ok(b) => Ok(field_hex_string((a + b) % modulus())),
        },
    }
}

/// Adds two hex-encoded field elements and returns the sum as `0x` and 64
/// hex digits. The parsed inputs are wiped once the sum is taken.
pub fn compute_commitment_root_wasm(master_hex: &str, sub_hex: &str) -> (r: Result<String, Error>)
    ensures
        string_result_view(r) == commitment_root_result(master_hex.spec_bytes(), sub_hex.spec_bytes()),
{
    let mut master = match fr_from_hex(master_hex) {
        Ok(x) => x,
        Err(e) => return Err(e),
    };
    let mut sub = match fr_from_hex(sub_hex) {
        Ok(x) => x,
        Err(e) => return Err(e),
    };
    let root = master.add(&sub);
    master.zeroize();
    sub.zeroize();
    Ok(fr_to_hex(&root))
}

} // verus!
