//! Wiping of secret byte buffers through the `zeroize` crate, whose writes
//! the compiler does not elide.

use vstd::prelude::*;
use zeroize::Zeroize;

verus! {

/// Calls `<Vec<u8> as zeroize::Zeroize>::zeroize`, which zeroes the elements
/// and the spare capacity and then clears the vector; claims that the vector
/// is empty afterwards.
#[verifier::external_body]
pub fn wipe_byte_vec(v: &mut Vec<u8>)
    ensures
        final(v)@.len() == 0,
{
    v.zeroize();
}

/// Calls `<[u8; 32] as zeroize::Zeroize>::zeroize`; claims that every byte
/// is zero afterwards.
#[verifier::external_body]
pub fn wipe_byte_array(a: &mut [u8; 32])
    ensures
        final(a)@ == Seq::new(32, |i: int| 0u8),
{
    a.zeroize();
}

/// Calls `<String as zeroize::Zeroize>::zeroize`, which zeroizes the
/// underlying byte vector and clears it; claims that the string is empty
/// afterwards.
#[verifier::external_body]
pub fn wipe_string(s: &mut String)
    ensures
        final(s)@.len() == 0,
{
    s.zeroize();
}

} // verus!
