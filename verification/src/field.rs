//! Elements of the BN254 scalar field, held as four little-endian 64-bit
//! limbs in canonical form (value below the modulus), together with the
//! big-endian byte encoding used on the wire.

use vstd::prelude::*;
use vstd::arithmetic::div_mod::lemma_fundamental_div_mod_converse;
use zeroize::Zeroize;

verus! {

/// 2^64, the weight of the second limb.
pub open spec fn pow2_64() -> nat {
    18446744073709551616nat
}

/// 2^128, the weight of the third limb.
pub open spec fn pow2_128() -> nat {
    340282366920938463463374607431768211456nat
}

/// 2^192, the weight of the fourth limb.
pub open spec fn pow2_192() -> nat {
    6277101735386680763835789423207666416102355444464034512896nat
}

/// 2^256, one past the largest value four limbs can hold.
pub open spec fn pow2_256() -> nat {
    115792089237316195423570985008687907853269984665640564039457584007913129639936nat
}

/// The order r of the BN254 scalar field.
pub open spec fn modulus() -> nat {
    21888242871839275222246405745257275088548364400416034343698204186575808495617nat
}

/// The integer held by four little-endian limbs.
pub open spec fn limbs_value(l: [u64; 4]) -> nat {
    l[0] as nat + l[1] as nat * pow2_64() + l[2] as nat * pow2_128() + l[3] as nat * pow2_192()
}

/// 256^n.
pub open spec fn pow256(n: nat) -> nat
    decreases n,
{
    if n == 0 {
        1
    } else {
        256 * pow256((n - 1) as nat)
    }
}

/// The integer that a byte string encodes in big-endian order.
pub open spec fn be_nat(s: Seq<u8>) -> nat
    decreases s.len(),
{
    if s.len() == 0 {
        0
    } else {
        be_nat(s.drop_last()) * 256 + s.last() as nat
    }
}

pub proof fn lemma_be_nat_push(s: Seq<u8>, b: u8)
    ensures
        be_nat(s.push(b)) == be_nat(s) * 256 + b as nat,
{
    assert(s.push(b).drop_last() =~= s);
}

pub proof fn lemma_pow256_positive(n: nat)
    ensures
        pow256(n) >= 1,
    decreases n,
{
    if n > 0 {
        lemma_pow256_positive((n - 1) as nat);
    }
}

pub proof fn lemma_pow256_monotonic(i: nat, j: nat)
    requires
        i <= j,
    ensures
        pow256(i) <= pow256(j),
    decreases j,
{
    if i < j {
        lemma_pow256_monotonic(i, (j - 1) as nat);
        lemma_pow256_positive((j - 1) as nat);
    }
}

pub proof fn lemma_pow256_small()
    ensures
        pow256(8) == pow2_64(),
        pow256(16) == pow2_128(),
        pow256(24) == pow2_192(),
        pow256(32) == pow2_256(),
{
    reveal_with_fuel(pow256, 33);
}

pub proof fn lemma_be_nat_bound(s: Seq<u8>)
    ensures
        be_nat(s) < pow256(s.len()),
    decreases s.len(),
{
    if s.len() > 0 {
        let p = pow256((s.len() - 1) as nat);
        let v = be_nat(s.drop_last());
        lemma_be_nat_bound(s.drop_last());
        assert(v * 256 + s.last() < p * 256) by (nonlinear_arith)
            requires
                v < p,
                s.last() < 256,
        ;
    }
}

pub proof fn lemma_be_nat_concat(a: Seq<u8>, b: Seq<u8>)
    ensures
        be_nat(a + b) == be_nat(a) * pow256(b.len()) + be_nat(b),
    decreases b.len(),
{
    if b.len() == 0 {
        assert(a + b =~= a);
        assert(pow256(0) == 1);
        assert(be_nat(a) * 1 == be_nat(a));
    } else {
        let b1 = b.drop_last();
        assert((a + b).drop_last() =~= a + b1);
        assert((a + b).last() == b.last());
        lemma_be_nat_concat(a, b1);
        let x = be_nat(a);
        let p = pow256(b1.len());
        assert(pow256(b.len()) == 256 * p);
        assert(be_nat(a + b) == be_nat(a + b1) * 256 + b.last());
        assert(be_nat(b) == be_nat(b1) * 256 + b.last());
        assert((x * p + be_nat(b1)) * 256 + b.last() == x * (256 * p) + (be_nat(b1) * 256
            + b.last())) by (nonlinear_arith);
        assert(be_nat(a + b) == x * pow256(b.len()) + be_nat(b));
    }
}

/// The n-byte big-endian encoding of v (v taken modulo 256^n).
pub open spec fn be_bytes(v: nat, n: nat) -> Seq<u8>
    decreases n,
{
    if n == 0 {
        Seq::empty()
    } else {
        be_bytes(v / 256, (n - 1) as nat).push((v % 256) as u8)
    }
}

/// A byte string is the big-endian encoding, at its own length, of the
/// integer it holds.
pub proof fn lemma_be_bytes_of_be_nat(s: Seq<u8>)
    ensures
        s == be_bytes(be_nat(s), s.len()),
    decreases s.len(),
{
    if s.len() > 0 {
        let t = s.drop_last();
        lemma_be_bytes_of_be_nat(t);
        lemma_fundamental_div_mod_converse(be_nat(s) as int, 256, be_nat(t) as int, s.last() as int);
        assert(s =~= be_bytes(be_nat(s), s.len()));
    }
}

pub proof fn lemma_be_bytes_len(v: nat, n: nat)
    ensures
        be_bytes(v, n).len() == n,
    decreases n,
{
    if n > 0 {
        lemma_be_bytes_len(v / 256, (n - 1) as nat);
    }
}

/// Encoding a value that fits and reading it back gives the value.
pub proof fn lemma_be_nat_of_be_bytes(v: nat, n: nat)
    requires
        v < pow256(n),
    ensures
        be_nat(be_bytes(v, n)) == v,
    decreases n,
{
    if n == 0 {
    } else {
        let p = pow256((n - 1) as nat);
        let q = v / 256;
        assert(q < p) by {
            vstd::arithmetic::div_mod::lemma_fundamental_div_mod(v as int, 256);
        }
        lemma_be_nat_of_be_bytes(q, (n - 1) as nat);
        lemma_be_nat_push(be_bytes(q, (n - 1) as nat), (v % 256) as u8);
        vstd::arithmetic::div_mod::lemma_fundamental_div_mod(v as int, 256);
    }
}

/// A 32-byte string holds four big-endian 64-bit words, the first one the
/// most significant.
pub proof fn lemma_be_nat_words(s: Seq<u8>)
    requires
        s.len() == 32,
    ensures
        be_nat(s) == be_nat(s.subrange(24, 32)) + be_nat(s.subrange(16, 24)) * pow2_64()
            + be_nat(s.subrange(8, 16)) * pow2_128() + be_nat(s.subrange(0, 8)) * pow2_192(),
{
    let w0 = s.subrange(0, 8);
    let w1 = s.subrange(8, 16);
    let w2 = s.subrange(16, 24);
    let w3 = s.subrange(24, 32);
    assert(s =~= w0 + w1 + w2 + w3);
    lemma_pow256_small();
    lemma_be_nat_concat(w0, w1);
    lemma_be_nat_concat(w0 + w1, w2);
    lemma_be_nat_concat(w0 + w1 + w2, w3);
    assert(be_nat(w0 + w1) == be_nat(w0) * pow2_64() + be_nat(w1));
    assert(be_nat(w0 + w1 + w2) == be_nat(w0 + w1) * pow2_64() + be_nat(w2));
    assert(be_nat(s) == be_nat(w0 + w1 + w2) * pow2_64() + be_nat(w3));
}

/// n zero bytes.
pub open spec fn zeros(n: nat) -> Seq<u8> {
    Seq::new(n, |i: int| 0u8)
}

pub proof fn lemma_be_nat_zeros(n: nat)
    ensures
        be_nat(zeros(n)) == 0,
    decreases n,
{
    if n > 0 {
        assert(zeros(n).drop_last() =~= zeros((n - 1) as nat));
        lemma_be_nat_zeros((n - 1) as nat);
    }
}

/// Leading zero bytes do not change the encoded integer.
pub proof fn lemma_be_nat_leading_zeros(n: nat, s: Seq<u8>)
    ensures
        be_nat(zeros(n) + s) == be_nat(s),
{
    lemma_be_nat_concat(zeros(n), s);
    lemma_be_nat_zeros(n);
    assert(0 * pow256(s.len()) == 0);
}


/// The limbs of the modulus.
fn modulus_limbs() -> (m: [u64; 4])
    ensures
        limbs_value(m) == modulus(),
{
    [0x43e1f593f0000001u64, 0x2833e84879b97091u64, 0xb85045b68181585du64, 0x30644e72e131a029u64]
}

/// Numeric comparison of two four-limb integers.
fn limbs_lt(a: &[u64; 4], b: &[u64; 4]) -> (r: bool)
    ensures
        r == (limbs_value(*a) < limbs_value(*b)),
{
    let mut i: usize = 4;
    while i > 0
        invariant
            i <= 4,
            forall|j: int| i <= j < 4 ==> a[j] == b[j],
        decreases i,
    {
        i = i - 1;
        if a[i] != b[i] {
            return a[i] < b[i];
        }
    }
    assert(a@ =~= b@);
    false
}

/// Subtraction of four-limb integers, propagating the borrow.
fn limbs_sub(a: &[u64; 4], b: &[u64; 4]) -> (r: [u64; 4])
    requires
        limbs_value(*b) <= limbs_value(*a),
    ensures
        limbs_value(r) == limbs_value(*a) - limbs_value(*b),
{
    let t0: u128 = a[0] as u128 + 0x1_0000_0000_0000_0000u128 - b[0] as u128;
    let r0 = (t0 % 0x1_0000_0000_0000_0000u128) as u64;
    let k0 = t0 / 0x1_0000_0000_0000_0000u128;
    let t1: u128 = a[1] as u128 + 0x1_0000_0000_0000_0000u128 - b[1] as u128 - (1 - k0);
    let r1 = (t1 % 0x1_0000_0000_0000_0000u128) as u64;
    let k1 = t1 / 0x1_0000_0000_0000_0000u128;
    let t2: u128 = a[2] as u128 + 0x1_0000_0000_0000_0000u128 - b[2] as u128 - (1 - k1);
    let r2 = (t2 % 0x1_0000_0000_0000_0000u128) as u64;
    let k2 = t2 / 0x1_0000_0000_0000_0000u128;
    let t3: u128 = a[3] as u128 + 0x1_0000_0000_0000_0000u128 - b[3] as u128 - (1 - k2);
    let r3 = (t3 % 0x1_0000_0000_0000_0000u128) as u64;
    let k3 = t3 / 0x1_0000_0000_0000_0000u128;
    let r = [r0, r1, r2, r3];
    assert(limbs_value(r) + (k3 as int - 1) * pow2_256() == limbs_value(*a) - limbs_value(*b));
    r
}

/// Addition of four-limb integers whose sum fits in four limbs.
fn limbs_add(a: &[u64; 4], b: &[u64; 4]) -> (r: [u64; 4])
    requires
        limbs_value(*a) + limbs_value(*b) < pow2_256(),
    ensures
        limbs_value(r) == limbs_value(*a) + limbs_value(*b),
{
    let t0: u128 = a[0] as u128 + b[0] as u128;
    let r0 = (t0 % 0x1_0000_0000_0000_0000u128) as u64;
    let c0 = t0 / 0x1_0000_0000_0000_0000u128;
    let t1: u128 = a[1] as u128 + b[1] as u128 + c0;
    let r1 = (t1 % 0x1_0000_0000_0000_0000u128) as u64;
    let c1 = t1 / 0x1_0000_0000_0000_0000u128;
    let t2: u128 = a[2] as u128 + b[2] as u128 + c1;
    let r2 = (t2 % 0x1_0000_0000_0000_0000u128) as u64;
    let c2 = t2 / 0x1_0000_0000_0000_0000u128;
    let t3: u128 = a[3] as u128 + b[3] as u128 + c2;
    let r3 = (t3 % 0x1_0000_0000_0000_0000u128) as u64;
    let c3 = t3 / 0x1_0000_0000_0000_0000u128;
    let r = [r0, r1, r2, r3];
    assert(limbs_value(r) + c3 * pow2_256() == limbs_value(*a) + limbs_value(*b));
    r
}


/// Wipes four limbs with the `zeroize` crate, whose writes the compiler
/// does not elide.
///
/// Calls `<[u64; 4] as zeroize::Zeroize>::zeroize`; claims that every limb
/// is zero afterwards, as that impl zeroizes each element of the array.
#[verifier::external_body]
fn zeroize_limbs(limbs: &mut [u64; 4])
    ensures
        final(limbs)@ == seq![0u64, 0u64, 0u64, 0u64],
    no_unwind
{
    limbs.zeroize();
}

/// An element of the BN254 scalar field, kept reduced below the modulus.
#[derive(Clone, Copy, Debug)]
pub struct Fr {
    pub(crate) limbs: [u64; 4],
}

impl View for Fr {
    type V = nat;

    /// The integer in `0..modulus()` that the element stands for.
    closed spec fn view(&self) -> nat {
        limbs_value(self.limbs)
    }
}

impl Fr {
    #[verifier::type_invariant]
    spec fn canonical(self) -> bool {
        limbs_value(self.limbs) < modulus()
    }

    /// Every element lies below the modulus.
    pub fn value_is_canonical(&self)
        ensures
            self@ < modulus(),
    {
        proof {
            use_type_invariant(self);
        }
    }

    /// The element with the value of a 64-bit integer.
    pub fn from_u64(n: u64) -> (r: Fr)
        ensures
            r@ == n as nat,
    {
        Fr { limbs: [n, 0, 0, 0] }
    }

    /// Reads 32 bytes in big-endian order as an element, when the integer
    /// they hold lies below the field order; `None` otherwise, so that
    /// distinct integers never give the same element.
    pub fn from_be_bytes_canonical(bytes: &[u8; 32]) -> (r: Option<Fr>)
        ensures
            r is Some <==> be_nat(bytes@) < modulus(),
            r matches Some(f) ==> f@ == be_nat(bytes@),
    {
        let hi = be_u64_at(bytes, 0);
        let mid_hi = be_u64_at(bytes, 8);
        let mid_lo = be_u64_at(bytes, 16);
        let lo = be_u64_at(bytes, 24);
        let limbs: [u64; 4] = [lo, mid_lo, mid_hi, hi];
        proof {
            lemma_be_nat_words(bytes@);
        }
        let m = modulus_limbs();
        if limbs_lt(&limbs, &m) {
            Some(Fr { limbs })
        } else {
            None
        }
    }

    /// Field addition.
    pub fn add(&self, other: &Fr) -> (r: Fr)
        ensures
            r@ == (self@ + other@) % modulus(),
    {
        proof {
            use_type_invariant(self);
            use_type_invariant(other);
        }
        let s = limbs_add(&self.limbs, &other.limbs);
        let m = modulus_limbs();
        if limbs_lt(&s, &m) {
            proof {
                lemma_fundamental_div_mod_converse((self@ + other@) as int, modulus() as int, 0, limbs_value(s) as int);
            }
            Fr { limbs: s }
        } else {
            let d = limbs_sub(&s, &m);
            proof {
                lemma_fundamental_div_mod_converse((self@ + other@) as int, modulus() as int, 1, limbs_value(d) as int);
            }
            Fr { limbs: d }
        }
    }

    /// The 32-byte big-endian encoding of the element.
    pub fn to_bytes_be(&self) -> (r: Vec<u8>)
        ensures
            r@ == be_bytes(self@, 32),
            be_nat(r@) == self@,
    {
        let mut out: Vec<u8> = Vec::new();
        assert(be_nat(out@) == 0);
        push_u64_be(&mut out, self.limbs[3]);
        push_u64_be(&mut out, self.limbs[2]);
        push_u64_be(&mut out, self.limbs[1]);
        push_u64_be(&mut out, self.limbs[0]);
        proof {
            lemma_be_bytes_of_be_nat(out@);
        }
        out
    }

    /// The four little-endian limbs of the element.
    pub fn limbs(&self) -> (r: [u64; 4])
        ensures
            limbs_value(r) == self@,
    {
        self.limbs
    }

    /// Overwrites the element with zero, through writes that are not elided.
    pub fn zeroize(&mut self)
        ensures
            final(self)@ == 0,
    {
        zeroize_limbs(&mut self.limbs);
    }
}

/// The big-endian 64-bit integer in `bytes[start..start + 8]`.
fn be_u64_at(bytes: &[u8; 32], start: usize) -> (r: u64)
    requires
        start + 8 <= 32,
    ensures
        r as nat == be_nat(bytes@.subrange(start as int, start + 8)),
{
    let mut r: u64 = 0;
    let mut i: usize = 0;
    proof {
        assert(bytes@.subrange(start as int, start as int) =~= Seq::<u8>::empty());
    }
    while i < 8
        invariant
            start + 8 <= 32,
            i <= 8,
            r as nat == be_nat(bytes@.subrange(start as int, start + i)),
        decreases 8 - i,
    {
        proof {
            let pre = bytes@.subrange(start as int, start + i);
            assert(bytes@.subrange(start as int, start + i + 1) =~= pre.push(bytes@[start + i]));
            lemma_be_nat_push(pre, bytes@[start + i]);
            lemma_be_nat_bound(pre);
            lemma_pow256_monotonic(i as nat, 7);
            reveal_with_fuel(pow256, 8);
            assert(pow256(7) == 0x100000000000000);
        }
        r = r * 256 + bytes[start + i] as u64;
        i = i + 1;
    }
    r
}

/// Appends the eight big-endian bytes of `x`.
fn push_u64_be(out: &mut Vec<u8>, x: u64)
    ensures
        final(out)@.len() == old(out)@.len() + 8,
        be_nat(final(out)@) == be_nat(old(out)@) * pow2_64() + x as nat,
{
    let b0 = (x % 256) as u8;
    let x1 = x / 256;
    let b1 = (x1 % 256) as u8;
    let x2 = x1 / 256;
    let b2 = (x2 % 256) as u8;
    let x3 = x2 / 256;
    let b3 = (x3 % 256) as u8;
    let x4 = x3 / 256;
    let b4 = (x4 % 256) as u8;
    let x5 = x4 / 256;
    let b5 = (x5 % 256) as u8;
    let x6 = x5 / 256;
    let b6 = (x6 % 256) as u8;
    let x7 = x6 / 256;
    let b7 = x7 as u8;
    let ghost s0 = out@;
    out.push(b7);
    proof { lemma_be_nat_push(s0, b7); }
    let ghost s1 = out@;
    out.push(b6);
    proof { lemma_be_nat_push(s1, b6); }
    let ghost s2 = out@;
    out.push(b5);
    proof { lemma_be_nat_push(s2, b5); }
    let ghost s3 = out@;
    out.push(b4);
    proof { lemma_be_nat_push(s3, b4); }
    let ghost s4 = out@;
    out.push(b3);
    proof { lemma_be_nat_push(s4, b3); }
    let ghost s5 = out@;
    out.push(b2);
    proof { lemma_be_nat_push(s5, b2); }
    let ghost s6 = out@;
    out.push(b1);
    proof { lemma_be_nat_push(s6, b1); }
    let ghost s7 = out@;
    out.push(b0);
    proof { lemma_be_nat_push(s7, b0); }
}

} // verus!
