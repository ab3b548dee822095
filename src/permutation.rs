use vstd::prelude::*;

use crate::bytes::le_value;
use crate::point::{generator_times, is_subgroup_encoding, Point};
use crate::scalar::{scalar_modulus, Scalar};
use dusk_bytes::Serializable;
use dusk_jubjub::{JubJubAffine, JubJubExtended, JubJubScalar};
use dusk_poseidon::sponge;

verus! {

/// The scalar that Poseidon's sponge hash gives for the point whose
/// compressed encoding is `p`, computed from the point's affine coordinates.
pub uninterp spec fn hash_of(p: Seq<u8>) -> int;

/// Relies on dusk_poseidon's `sponge::hash` over `to_hash_inputs` (the two
/// affine coordinates, so that the result depends on the point alone), taken
/// into JubJub's scalar field by `JubJubScalar::from_raw`.
#[verifier::external_body]
fn sponge_hash(p: &[u8; 32]) -> (r: [u8; 32])
    requires
        is_subgroup_encoding(p@),
    ensures
        le_value(r@) == hash_of(p@),
        le_value(r@) < scalar_modulus(),
{
    let p = JubJubExtended::from(JubJubAffine::from_bytes(p).unwrap());
    let h = sponge::hash(&p.to_hash_inputs());
    JubJubScalar::from_raw(h.reduce().0).to_bytes()
}

/// The hash of the point `k·G`.
pub open spec fn point_hash(k: int) -> int {
    hash_of(generator_times(k))
}

/// Hashes a point into a scalar. Equal points give equal scalars, whatever
/// computation produced them.
pub fn hash(p: &Point) -> (r: Scalar)
    ensures
        r@ == point_hash(p@),
{
    p.log_in_range();
    let b = p.to_bytes();
    assert(is_subgroup_encoding(b@));
    Scalar::from_canonical_bytes(sponge_hash(&b))
}

} // verus!
