//! The witness of the membership circuit: a master address and a sub-wallet
//! address whose Poseidon digest, walked up a four-level Merkle path,
//! reaches the public commitment root, within a validity window.

use vstd::prelude::*;

use crate::field::{modulus, Fr};
use crate::poseidon::{poseidon_pair_digest, PoseidonParams};

verus! {

/// The assignments of the membership circuit. Public inputs are the root
/// and the two timestamps; the addresses and the path elements are private.
pub struct IdentiFIClusterCircuit {
    /// Private witness.
    pub master_address: Option<Fr>,
    /// Private witness.
    pub sub_wallet_address: Option<Fr>,
    /// Public input.
    pub commitment_root: Option<Fr>,
    /// Public input.
    pub timestamp_exp: Option<Fr>,
    /// Public input.
    pub timestamp_iat: Option<Fr>,
    /// Private sibling hashes, from the leaf upwards.
    pub path_elements: Vec<Option<Fr>>,
    /// Whether the running hash is the left node at each level.
    pub path_indices: Vec<Option<bool>>,
}

/// One level of the Merkle path: the running hash is hashed with its
/// sibling, on the left when the direction says so.
pub open spec fn merkle_step(params: PoseidonParams, current: nat, sibling: nat, left: bool) -> nat {
    if left {
        poseidon_pair_digest(params, current, sibling)
    } else {
        poseidon_pair_digest(params, sibling, current)
    }
}

/// The running hash after the first `n` levels of the path, from the leaf.
pub open spec fn merkle_walk(
    params: PoseidonParams,
    leaf: nat,
    siblings: Seq<nat>,
    left: Seq<bool>,
    n: nat,
) -> nat
    decreases n,
{
    if n == 0 {
        leaf
    } else {
        merkle_step(
            params,
            merkle_walk(params, leaf, siblings, left, (n - 1) as nat),
            siblings[n - 1],
            left[n - 1],
        )
    }
}

/// The statement the membership circuit's constraints encode, over its
/// assignments: every value is assigned and the path has at least four
/// levels; the expiry and the issue time both lie in the lower half of the
/// field and the expiry comes strictly after the issue time; and hashing
/// the master address with the sub-wallet address, then walking four levels
/// of the path, reaches the commitment root.
pub open spec fn membership_holds(c: IdentiFIClusterCircuit, params: PoseidonParams) -> bool {
    &&& c.master_address is Some
    &&& c.sub_wallet_address is Some
    &&& c.commitment_root is Some
    &&& c.timestamp_exp is Some
    &&& c.timestamp_iat is Some
    &&& c.path_elements@.len() >= 4
    &&& c.path_indices@.len() >= 4
    &&& forall|i: int| 0 <= i < 4 ==> (#[trigger] c.path_elements@[i]) is Some
    &&& forall|i: int| 0 <= i < 4 ==> (#[trigger] c.path_indices@[i]) is Some
    &&& c.timestamp_exp.unwrap()@ <= (modulus() - 1) / 2
    &&& c.timestamp_iat.unwrap()@ <= (modulus() - 1) / 2
    &&& c.timestamp_iat.unwrap()@ < c.timestamp_exp.unwrap()@
    &&& merkle_walk(
        params,
        poseidon_pair_digest(params, c.master_address.unwrap()@, c.sub_wallet_address.unwrap()@),
        c.path_elements@.map_values(|x: Option<Fr>| x.unwrap()@),
        c.path_indices@.map_values(|d: Option<bool>| d.unwrap()),
        4,
    ) == c.commitment_root.unwrap()@
}

/// Every assigned element of the path has been overwritten with zero.
pub open spec fn path_wiped(before: Seq<Option<Fr>>, after: Seq<Option<Fr>>) -> bool {
    &&& after.len() == before.len()
    &&& forall|i: int|
        0 <= i < after.len() ==> match before[i] {
            Some(_) => (#[trigger] after[i]) matches Some(x) && x@ == 0,
            None => after[i] is None,
        }
}

/// Overwrites every assigned path element with zero, in place.
pub fn wipe_path_elements(v: &mut Vec<Option<Fr>>)
    ensures
        path_wiped(old(v)@, final(v)@),
{
    let ghost before = v@;
    let mut i: usize = 0;
    while i < v.len()
        invariant
            v@.len() == before.len(),
            i <= v@.len(),
            forall|j: int|
                0 <= j < i ==> match before[j] {
                    Some(_) => (#[trigger] v@[j]) matches Some(x) && x@ == 0,
                    None => v@[j] is None,
                },
            forall|j: int| i <= j < v@.len() ==> v@[j] == before[j],
        decreases v@.len() - i,
    {
        match &mut v[i] {
            Some(e) => e.zeroize(),
            None => {},
        }
        i = i + 1;
    }
}

impl IdentiFIClusterCircuit {
    /// The sibling and the direction at level `i` of the Merkle path, when
    /// both are present and assigned.
    pub fn path_step(&self, i: usize) -> (r: Option<(Fr, bool)>)
        ensures
            r == (if i < self.path_elements@.len() && i < self.path_indices@.len()
                && self.path_elements@[i as int] is Some && self.path_indices@[i as int] is Some {
                Some((self.path_elements@[i as int].unwrap(), self.path_indices@[i as int].unwrap()))
            } else {
                None
            }),
    {
        if i < self.path_elements.len() && i < self.path_indices.len() {
            match (self.path_elements[i], self.path_indices[i]) {
                (Some(e), Some(d)) => Some((e, d)),
                _ => None,
            }
        } else {
            None
        }
    }

    /// Wipes the private witnesses: the two addresses and the path elements
    /// are overwritten with zero and dropped. The public inputs and the
    /// directions stay as they are.
    pub fn zeroize_private(&mut self)
        ensures
            final(self).master_address is None,
            final(self).sub_wallet_address is None,
            final(self).path_elements@.len() == 0,
            final(self).commitment_root == old(self).commitment_root,
            final(self).timestamp_exp == old(self).timestamp_exp,
            final(self).timestamp_iat == old(self).timestamp_iat,
            final(self).path_indices == old(self).path_indices,
    {
        match &mut self.master_address {
            Some(e) => e.zeroize(),
            None => {},
        }
        self.master_address = None;
        match &mut self.sub_wallet_address {
            Some(e) => e.zeroize(),
            None => {},
        }
        self.sub_wallet_address = None;
        wipe_path_elements(&mut self.path_elements);
        self.path_elements.clear();
    }
}

} // verus!
