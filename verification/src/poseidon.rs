//! The Poseidon sponge over the BN254 scalar field: its parameters, derived
//! once from the Grain LFSR, and the digest of a pair of field elements.

use vstd::prelude::*;
use ark_crypto_primitives::sponge::{CryptographicSponge, FieldBasedCryptographicSponge};
use ark_crypto_primitives::sponge::poseidon::{find_poseidon_ark_and_mds, PoseidonSponge};
use ark_crypto_primitives::sponge::poseidon::PoseidonConfig as ArkPoseidonConfig;
use ark_ff::{BigInt, PrimeField};
use ark_bn254::Fr as ArkFr;

use crate::error::Error;
use crate::field::{modulus, Fr};
use crate::hex::{fr_from_hex, fr_to_hex, field_hex_string, parse_field_hex, string_result_view};
use vstd::string::StringSliceAdditionalSpecFns;

verus! {

/// The parameters of a Poseidon permutation, as plain values.
pub struct PoseidonParams {
    pub full_rounds: nat,
    pub partial_rounds: nat,
    pub alpha: nat,
    pub ark: Seq<Seq<nat>>,
    pub mds: Seq<Seq<nat>>,
    pub rate: nat,
    pub capacity: nat,
}

/// The values of a matrix of field elements.
pub open spec fn matrix_view(m: Seq<Vec<Fr>>) -> Seq<Seq<nat>> {
    m.map_values(|row: Vec<Fr>| row@.map_values(|x: Fr| x@))
}

/// Configuration of the Poseidon sponge.
pub struct PoseidonConfig {
    /// Number of rounds in a full-round operation.
    pub full_rounds: usize,
    /// Number of rounds in a partial-round operation.
    pub partial_rounds: usize,
    /// Exponent used in the S-boxes.
    pub alpha: u64,
    /// Additive round keys, indexed by round and then by state element.
    pub ark: Vec<Vec<Fr>>,
    /// The maximally distance separating matrix.
    pub mds: Vec<Vec<Fr>>,
    /// The rate, in field elements.
    pub rate: usize,
    /// The capacity, in field elements.
    pub capacity: usize,
}

impl View for PoseidonConfig {
    type V = PoseidonParams;

    open spec fn view(&self) -> PoseidonParams {
        PoseidonParams {
            full_rounds: self.full_rounds as nat,
            partial_rounds: self.partial_rounds as nat,
            alpha: self.alpha as nat,
            ark: matrix_view(self.ark@),
            mds: matrix_view(self.mds@),
            rate: self.rate as nat,
            capacity: self.capacity as nat,
        }
    }
}

/// The dimensions that the permutation indexes by: one row of round keys per
/// round, and a square matrix, each row as wide as the state.
pub open spec fn shape_ok(
    full_rounds: nat,
    partial_rounds: nat,
    ark: Seq<Vec<Fr>>,
    mds: Seq<Vec<Fr>>,
    width: nat,
) -> bool {
    &&& ark.len() == full_rounds + partial_rounds
    &&& forall|i: int| 0 <= i < ark.len() ==> (#[trigger] ark[i])@.len() == width
    &&& mds.len() == width
    &&& forall|i: int| 0 <= i < mds.len() ==> (#[trigger] mds[i])@.len() == width
}

impl PoseidonConfig {
    /// Whether the dimensions match the round counts and the state width.
    pub open spec fn well_shaped(&self) -> bool {
        shape_ok(
            self.full_rounds as nat,
            self.partial_rounds as nat,
            self.ark@,
            self.mds@,
            (self.rate + self.capacity) as nat,
        )
    }

    /// Builds a configuration whose dimensions match.
    pub fn new(
        full_rounds: usize,
        partial_rounds: usize,
        alpha: u64,
        mds: Vec<Vec<Fr>>,
        ark: Vec<Vec<Fr>>,
        rate: usize,
        capacity: usize,
    ) -> (r: PoseidonConfig)
        requires
            shape_ok(full_rounds as nat, partial_rounds as nat, ark@, mds@, (rate + capacity) as nat),
        ensures
            r.full_rounds == full_rounds,
            r.partial_rounds == partial_rounds,
            r.alpha == alpha,
            r.mds == mds,
            r.ark == ark,
            r.rate == rate,
            r.capacity == capacity,
            r.well_shaped(),
    {
        PoseidonConfig { full_rounds, partial_rounds, alpha, ark, mds, rate, capacity }
    }
}

/// The round keys and the matrix that the Grain LFSR yields for the given
/// field size, rate, round counts and number of skipped matrices.
pub uninterp spec fn grain_ark_and_mds(
    prime_bits: u64,
    rate: usize,
    full_rounds: u64,
    partial_rounds: u64,
    skip_matrices: u64,
) -> (Seq<Seq<nat>>, Seq<Seq<nat>>);

/// The element that a fresh Poseidon sponge with the given parameters
/// squeezes after absorbing `a` and then `b`.
pub uninterp spec fn poseidon_pair_digest(params: PoseidonParams, a: nat, b: nat) -> nat;

/// Calls `ark_crypto_primitives::sponge::poseidon::find_poseidon_ark_and_mds`
/// over the BN254 scalar field and converts each element to its limbs.
/// Claims that the result is the named value of the arguments, and the
/// dimensions that the source builds: `full_rounds + partial_rounds` rows of
/// `rate + 1` round keys and a `rate + 1` square matrix. Each element is
/// taken by `into_bigint`, whose limbs hold its canonical integer, below the
/// modulus as `Fr` requires. Only the parameters
/// used by this library are admitted: the source does not show for which
/// arguments its sampling loops end and its inversions succeed.
#[verifier::external_body]
fn find_ark_and_mds(
    prime_bits: u64,
    rate: usize,
    full_rounds: u64,
    partial_rounds: u64,
    skip_matrices: u64,
) -> (r: (Vec<Vec<Fr>>, Vec<Vec<Fr>>))
    requires
        prime_bits == 254,
        rate == 3,
        full_rounds == 8,
        partial_rounds == 57,
        skip_matrices == 5,
    ensures
        (matrix_view(r.0@), matrix_view(r.1@)) == grain_ark_and_mds(
            prime_bits,
            rate,
            full_rounds,
            partial_rounds,
            skip_matrices,
        ),
        shape_ok(full_rounds as nat, partial_rounds as nat, r.0@, r.1@, rate as nat + 1),
{
    let (ark, mds) = find_poseidon_ark_and_mds::<ArkFr>(
        prime_bits, rate, full_rounds, partial_rounds, skip_matrices,
    );
    let conv = |m: Vec<Vec<ArkFr>>| -> Vec<Vec<Fr>>
        { m.iter().map(|row| row.iter().map(|x| Fr { limbs: x.into_bigint().0 }).collect()).collect() };
    (conv(ark), conv(mds))
}

/// Calls `PoseidonSponge::new`, `absorb` on `a` and then on `b`, and
/// `squeeze_native_field_elements(1)` from `ark_crypto_primitives`, on the
/// configuration (rebuilt by `PoseidonConfig::new`, whose dimension checks
/// hold by the precondition) and the elements, each built from its limbs.
/// Claims that the first squeezed element is the named digest of the
/// parameters and the two elements, and that there is one: the source
/// squeezes exactly the
/// number of elements asked for. The output is taken by `into_bigint`, below
/// the modulus as `Fr` requires. The configuration must have the
/// dimensions the permutation indexes by and a positive rate, without which
/// absorbing does not end.
#[verifier::external_body]
fn poseidon_squeeze_pair(config: &PoseidonConfig, a: &Fr, b: &Fr) -> (r: Option<Fr>)
    requires
        config.well_shaped(),
        config.rate >= 1,
    ensures
        r is Some,
        r.unwrap()@ == poseidon_pair_digest(config@, a@, b@),
{
    let conv = |m: &Vec<Vec<Fr>>| -> Vec<Vec<ArkFr>>
        { m.iter().map(|row| row.iter().map(|x| BigInt::new(x.limbs).into()).collect()).collect() };
    let c = config;
    let cfg = ArkPoseidonConfig::new(c.full_rounds, c.partial_rounds, c.alpha, conv(&c.mds),
        conv(&c.ark), c.rate, c.capacity);
    let mut sponge = PoseidonSponge::new(&cfg);
    sponge.absorb(&ArkFr::from(BigInt::new(a.limbs)));
    sponge.absorb(&ArkFr::from(BigInt::new(b.limbs)));
    sponge.squeeze_native_field_elements(1).get(0).map(|x| Fr { limbs: x.into_bigint().0 })
}

/// The parameters this library hashes with: 8 full and 57 partial rounds,
/// S-box exponent 5, rate 2, and the round keys and matrix of the Grain
/// LFSR for 254-bit primes searched at rate 3 with 5 skipped matrices; the
/// capacity is the matrix width less 2.
pub open spec fn standard_poseidon_params() -> PoseidonParams {
    let (ark, mds) = grain_ark_and_mds(254, 3, 8, 57, 5);
    PoseidonParams {
        full_rounds: 8,
        partial_rounds: 57,
        alpha: 5,
        ark,
        mds,
        rate: 2,
        capacity: (mds.len() - 2) as nat,
    }
}

/// Builds the Poseidon configuration used throughout the library.
pub fn get_poseidon_config() -> (c: PoseidonConfig)
    ensures
        c@ == standard_poseidon_params(),
        c@.ark == grain_ark_and_mds(254, 3, 8, 57, 5).0,
        c@.mds == grain_ark_and_mds(254, 3, 8, 57, 5).1,
        c@ == (PoseidonParams {
            full_rounds: 8,
            partial_rounds: 57,
            alpha: 5,
            ark: grain_ark_and_mds(254, 3, 8, 57, 5).0,
            mds: grain_ark_and_mds(254, 3, 8, 57, 5).1,
            rate: 2,
            capacity: 2,
        }),
        c.well_shaped(),
        c.full_rounds == 8,
        c.partial_rounds == 57,
        c.alpha == 5,
        c.rate == 2,
        c.capacity == 2,
        c.ark@.len() == 65,
        c.mds@.len() == 4,
{
    let full_rounds: u64 = 8;
    let partial_rounds: u64 = 57;
    let alpha: u64 = 5;
    let (ark, mds) = find_ark_and_mds(254, 3, full_rounds, partial_rounds, alpha);
    let real_width = mds.len();
    let real_capacity = real_width - 2;
    PoseidonConfig::new(
        full_rounds as usize,
        partial_rounds as usize,
        alpha,
        mds,
        ark,
        2,
        real_capacity,
    )
}


/// What hashing two hex-encoded field elements gives: the first parse
/// error, or the hex string of the Poseidon digest of the pair under the
/// standard parameters.
pub open spec fn poseidon_native_result(master: Seq<u8>, sub: Seq<u8>) -> Result<Seq<char>, Error> {
    match parse_field_hex(master) {
        Err(e) => Err(e),
        Ok(a) => match parse_field_hex(sub) {
            Err(e) => Err(e),
            Ok(b) => Ok(field_hex_string(poseidon_pair_digest(standard_poseidon_params(), a, b))),
        },
    }
}

/// Hashes two hex-encoded field elements with Poseidon and returns the
/// digest as `0x` and 64 hex digits. The parsed inputs are wiped once the
/// digest is taken.
pub fn compute_poseidon_native(master_hex: &str, sub_hex: &str) -> (r: Result<String, Error>)
    ensures
        string_result_view(r) == poseidon_native_result(master_hex.spec_bytes(), sub_hex.spec_bytes()),
        r is Ok ==> poseidon_pair_digest(
            standard_poseidon_params(),
            parse_field_hex(master_hex.spec_bytes())->Ok_0,
            parse_field_hex(sub_hex.spec_bytes())->Ok_0,
        ) < modulus(),
        r matches Ok(text) ==> text@ == field_hex_string(
            poseidon_pair_digest(
                (PoseidonParams {
                    full_rounds: 8,
                    partial_rounds: 57,
                    alpha: 5,
                    ark: grain_ark_and_mds(254, 3, 8, 57, 5).0,
                    mds: grain_ark_and_mds(254, 3, 8, 57, 5).1,
                    rate: 2,
                    capacity: 2,
                }),
                parse_field_hex(master_hex.spec_bytes())->Ok_0,
                parse_field_hex(sub_hex.spec_bytes())->Ok_0,
            ),
        ),
{
    let mut a = match fr_from_hex(master_hex) {
        Ok(x) => x,
        Err(e) => return Err(e),
    };
    let mut b = match fr_from_hex(sub_hex) {
        Ok(x) => x,
        Err(e) => return Err(e),
    };
    let config = get_poseidon_config();
    let output = match poseidon_squeeze_pair(&config, &a, &b) {
        Some(h) => h,
        None => return Err(Error::SqueezeFailed),
    };
    output.value_is_canonical();
    a.zeroize();
    b.zeroize();
    Ok(fr_to_hex(&output))
}

} // verus!
