use vstd::prelude::*;

use crate::bytes::{ct_bytes_eq, le_value};
use crate::scalar::{scalar_modulus, Scalar};
use dusk_bytes::Serializable;
use dusk_jubjub::{JubJubAffine, JubJubExtended, JubJubScalar, GENERATOR_EXTENDED};

verus! {

/// The canonical compressed encoding of `k·G`, where `G` is dusk_jubjub's
/// `GENERATOR_EXTENDED`, a generator of the subgroup of prime order `ℓ`.
pub uninterp spec fn generator_times(k: int) -> Seq<u8>;

/// Whether `b` is the canonical compressed encoding of a point of the curve.
pub uninterp spec fn is_curve_encoding(b: Seq<u8>) -> bool;

/// Whether `b` encodes a point of the prime-order subgroup, that is, a
/// multiple of the generator.
pub open spec fn is_subgroup_encoding(b: Seq<u8>) -> bool {
    exists|k: int| 0 <= k < scalar_modulus() && #[trigger] generator_times(k) == b
}

/// The modulus `q` of the BLS12-381 scalar field, over which JubJub's
/// coordinates lie.
pub open spec fn base_modulus() -> int {
    (0x73eda753299d7d483339d80809a1d805 * 0x1_0000_0000_0000_0000 * 0x1_0000_0000_0000_0000
        + 0x53bda402fffe5bfeffffffff00000001) as int
}

/// Whether at most one discrete logarithm below `ℓ` has the encoding `b`.
/// The generator has prime order `ℓ`, so this holds of every encoding.
pub open spec fn has_unique_log(b: Seq<u8>) -> bool {
    forall|j: int, k: int|
        0 <= j < scalar_modulus() && 0 <= k < scalar_modulus() && #[trigger] generator_times(j)
            == b && #[trigger] generator_times(k) == b ==> j == k
}

/// Whether `k` is the discrete logarithm of the point that `b` encodes: the
/// one value below `ℓ` with `k·G` encoded by `b`.
pub open spec fn is_log_of(k: int, b: Seq<u8>) -> bool {
    &&& 0 <= k < scalar_modulus()
    &&& generator_times(k) == b
    &&& has_unique_log(b)
}

/// Whether `k` is the discrete logarithm of a point as this library holds
/// it: below `ℓ`, with a 32-byte encoding that no other such logarithm has.
pub open spec fn is_point_log(k: int) -> bool {
    &&& 0 <= k < scalar_modulus()
    &&& generator_times(k).len() == 32
    &&& has_unique_log(generator_times(k))
}

/// Relies on dusk_jubjub's scalar multiplication `GENERATOR_EXTENDED * s`,
/// and on `JubJubAffine::to_bytes` for the compressed encoding, which is one
/// for each point; the generator has prime order `ℓ`.
#[verifier::external_body]
fn generator_mul(s: &[u8; 32]) -> (r: [u8; 32])
    requires
        le_value(s@) < scalar_modulus(),
    ensures
        r@ == generator_times(le_value(s@)),
        has_unique_log(r@),
{
    let s = JubJubScalar::from_bytes(s).unwrap();
    JubJubAffine::from(GENERATOR_EXTENDED * s).to_bytes()
}

/// Relies on dusk_jubjub's scalar multiplication `JubJubExtended * s`: when
/// `P = k·G`, then `s·P = (k·s)·G`, a point of the subgroup generated by the
/// generator of prime order `ℓ`.
#[verifier::external_body]
fn point_mul(p: &[u8; 32], s: &[u8; 32]) -> (r: [u8; 32])
    requires
        is_subgroup_encoding(p@),
        le_value(s@) < scalar_modulus(),
    ensures
        forall|k: int|
            0 <= k < scalar_modulus() && #[trigger] generator_times(k) == p@ ==> r@
                == generator_times((k * le_value(s@)) % scalar_modulus()),
        has_unique_log(r@),
{
    let p = JubJubExtended::from(JubJubAffine::from_bytes(p).unwrap());
    let s = JubJubScalar::from_bytes(s).unwrap();
    JubJubAffine::from(p * s).to_bytes()
}

/// Relies on dusk_jubjub's point addition `JubJubExtended + JubJubExtended`:
/// `j·G + k·G = (j + k)·G`, a point of the subgroup generated by the
/// generator of prime order `ℓ`.
#[verifier::external_body]
fn point_add(p: &[u8; 32], q: &[u8; 32]) -> (r: [u8; 32])
    requires
        is_subgroup_encoding(p@),
        is_subgroup_encoding(q@),
    ensures
        forall|j: int, k: int|
            0 <= j < scalar_modulus() && 0 <= k < scalar_modulus() && #[trigger] generator_times(j)
                == p@ && #[trigger] generator_times(k) == q@ ==> r@ == generator_times(
                (j + k) % scalar_modulus(),
            ),
        has_unique_log(r@),
{
    let p = JubJubExtended::from(JubJubAffine::from_bytes(p).unwrap());
    let q = JubJubExtended::from(JubJubAffine::from_bytes(q).unwrap());
    JubJubAffine::from(p + q).to_bytes()
}

/// Relies on `Serializable::from_bytes` of `JubJubAffine`, which accepts the
/// canonical encodings of the curve's points (ZIP 216), among them every
/// multiple of the generator. The 255 bits below the sign bit are the
/// `y`-coordinate, which `BlsScalar::from_bytes` accepts only below `q`.
#[verifier::external_body]
fn curve_point_check(b: &[u8; 32]) -> (r: bool)
    ensures
        r == is_curve_encoding(b@),
        is_subgroup_encoding(b@) ==> r,
        r ==> le_value(b@.update(31, (b@[31] % 128) as u8)) < base_modulus(),
{
    JubJubAffine::from_bytes(b).is_ok()
}

/// Relies on `JubJubAffine::is_torsion_free`, which holds of exactly the
/// points of the prime-order subgroup; that subgroup is generated by the
/// generator, of prime order `ℓ`, so each of its points has one logarithm.
#[verifier::external_body]
fn torsion_free_check(b: &[u8; 32]) -> (r: bool)
    requires
        is_curve_encoding(b@),
    ensures
        r == is_subgroup_encoding(b@),
        r ==> has_unique_log(b@),
{
    JubJubAffine::from_bytes(b).unwrap().is_torsion_free().into()
}

/// A point of JubJub's prime-order subgroup, held in its canonical
/// compressed encoding. Its model is its discrete logarithm `k` with respect
/// to the generator: the point is `k·G`.
#[derive(Clone, Copy)]
pub struct Point {
    bytes: [u8; 32],
    k: Ghost<int>,
}

impl View for Point {
    type V = int;

    closed spec fn view(&self) -> int {
        self.k@
    }
}

impl Point {
    /// Whether the point's bytes are the encoding of `k·G`, for its
    /// discrete logarithm `k` in `[0, ℓ)`; every point satisfies it.
    #[verifier::type_invariant]
    pub closed spec fn well_formed(self) -> bool {
        &&& 0 <= self.k@ < scalar_modulus()
        &&& self.bytes@ == generator_times(self.k@)
        &&& has_unique_log(self.bytes@)
    }

    /// The well-formed point whose discrete logarithm is `k`, where there is
    /// one.
    pub(crate) closed spec fn of_log(k: int) -> Point {
        choose|p: Point| p.well_formed() && p@ == k
    }

    /// A well-formed point is the one that its discrete logarithm
    /// determines.
    pub(crate) proof fn lemma_of_log(self)
        requires
            self.well_formed(),
        ensures
            self == Point::of_log(self@),
    {
        let q = Point::of_log(self@);
        assert(q.well_formed() && q@ == self@);
        assert(q.bytes =~= self.bytes);
        assert(q.k == self.k);
    }

    /// A point is the one that its discrete logarithm determines.
    pub(crate) fn is_of_log(&self)
        ensures
            *self == Point::of_log(self@),
    {
        proof {
            use_type_invariant(self);
            self.lemma_of_log();
        }
    }

    /// The compressed encoding of the point.
    pub open spec fn encoding(&self) -> Seq<u8> {
        generator_times(self@)
    }

    /// The point's discrete logarithm lies in `[0, ℓ)`, is the only one
    /// that its encoding has there, and that encoding has 32 bytes.
    pub fn log_in_range(&self)
        ensures
            is_point_log(self@),
            is_log_of(self@, self.encoding()),
    {
        proof {
            use_type_invariant(self);
        }
    }

    /// The point `s·G`.
    pub fn mul_generator(s: &Scalar) -> (r: Point)
        ensures
            r@ == s@,
    {
        s.value_in_range();
        let b = s.to_bytes();
        Point { bytes: generator_mul(&b), k: Ghost(s@) }
    }

    /// The point `s·P`, where `P` is `self`.
    pub fn mul(&self, s: &Scalar) -> (r: Point)
        ensures
            r@ == (self@ * s@) % scalar_modulus(),
    {
        proof {
            use_type_invariant(self);
        }
        s.value_in_range();
        let b = s.to_bytes();
        let bytes = point_mul(&self.bytes, &b);
        let ghost k = (self@ * s@) % scalar_modulus();
        assert(bytes@ == generator_times(k));
        Point { bytes, k: Ghost(k) }
    }

    /// The sum of two points.
    pub fn add(&self, other: &Point) -> (r: Point)
        ensures
            r@ == (self@ + other@) % scalar_modulus(),
    {
        proof {
            use_type_invariant(self);
            use_type_invariant(other);
        }
        let bytes = point_add(&self.bytes, &other.bytes);
        let ghost k = (self@ + other@) % scalar_modulus();
        assert(bytes@ == generator_times(k));
        Point { bytes, k: Ghost(k) }
    }

    /// The compressed encoding of the point.
    pub fn to_bytes(&self) -> (r: [u8; 32])
        ensures
            r@ == self.encoding(),
    {
        proof {
            use_type_invariant(self);
        }
        self.bytes
    }

    /// Decodes a point from its compressed encoding; `None` where the bytes
    /// do not encode a point of the prime-order subgroup.
    pub fn from_bytes(b: &[u8; 32]) -> (r: Option<Point>)
        ensures
            r is Some <==> is_subgroup_encoding(b@),
            r matches Some(p) ==> p.encoding() == b@ && is_log_of(p@, b@),
    {
        if curve_point_check(b) && torsion_free_check(b) {
            let ghost k = choose|k: int| 0 <= k < scalar_modulus() && generator_times(k) == b@;
            Some(Point { bytes: *b, k: Ghost(k) })
        } else {
            None
        }
    }
}

impl PartialEq for Point {
    /// Compares the two encodings in constant time; each point has one
    /// encoding, so this compares the points.
    fn eq(&self, other: &Point) -> (r: bool) {
        proof {
            use_type_invariant(self);
            use_type_invariant(other);
        }
        let r = ct_bytes_eq(self.bytes.as_slice(), other.bytes.as_slice());
        proof {
            if r {
                assert(generator_times(self@) == self.bytes@);
                assert(generator_times(other@) == self.bytes@);
            }
        }
        r
    }
}

impl vstd::std_specs::cmp::PartialEqSpecImpl for Point {
    open spec fn obeys_eq_spec() -> bool {
        true
    }

    open spec fn eq_spec(&self, other: &Point) -> bool {
        self@ == other@
    }
}

impl Eq for Point {}

} // verus!
