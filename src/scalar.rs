use vstd::prelude::*;

use crate::bytes::{ct_bytes_eq, le_value, lemma_le_value_injective, lemma_le_value_nonneg};
use dusk_bytes::Serializable;
use dusk_jubjub::JubJubScalar;

verus! {

/// The order `ℓ` of JubJub's prime-order subgroup, which is the modulus of
/// its scalar field.
pub open spec fn scalar_modulus() -> int {
    (0x0e7db4ea6533afa906673b0101343b00 * 0x1_0000_0000_0000_0000 * 0x1_0000_0000_0000_0000
        + 0xa6682093ccc81082d0970e5ed6f72cb7) as int
}

/// An element of JubJub's scalar field, held in its canonical 32-byte
/// little-endian encoding.
#[derive(Clone, Copy, Debug)]
pub struct Scalar {
    bytes: [u8; 32],
}

impl View for Scalar {
    type V = int;

    /// The value of the scalar, in `[0, ℓ)`.
    closed spec fn view(&self) -> int {
        le_value(self.bytes@)
    }
}

/// Relies on `Serializable::from_bytes` of dusk_jubjub's `JubJubScalar`: it
/// accepts exactly the little-endian encodings of values below the modulus.
#[verifier::external_body]
fn is_canonical_scalar(b: &[u8; 32]) -> (r: bool)
    ensures
        r == (le_value(b@) < scalar_modulus()),
{
    JubJubScalar::from_bytes(b).is_ok()
}

/// Relies on dusk_jubjub's field addition `JubJubScalar + JubJubScalar`, and
/// on `to_bytes` giving the canonical little-endian encoding of the sum.
#[verifier::external_body]
fn scalar_sum(x: &[u8; 32], y: &[u8; 32]) -> (r: [u8; 32])
    requires
        le_value(x@) < scalar_modulus(),
        le_value(y@) < scalar_modulus(),
    ensures
        le_value(r@) == (le_value(x@) + le_value(y@)) % scalar_modulus(),
{
    let x = JubJubScalar::from_bytes(x).unwrap();
    let y = JubJubScalar::from_bytes(y).unwrap();
    (x + y).to_bytes()
}

/// Relies on `JubJubScalar::from_bytes_wide`, which reduces a 512-bit
/// little-endian integer modulo `ℓ`.
#[verifier::external_body]
fn scalar_from_wide(b: &[u8; 64]) -> (r: [u8; 32])
    ensures
        le_value(r@) == le_value(b@) % scalar_modulus(),
{
    JubJubScalar::from_bytes_wide(b).to_bytes()
}

/// Relies on `JubJubScalar::from(u64)`, which gives the scalar of that value.
#[verifier::external_body]
fn scalar_from_u64(n: u64) -> (r: [u8; 32])
    ensures
        le_value(r@) == n,
{
    JubJubScalar::from(n).to_bytes()
}

impl Scalar {
    /// Whether the scalar's encoding is canonical, its value below `ℓ`;
    /// every scalar satisfies it.
    #[verifier::type_invariant]
    pub closed spec fn canonical(self) -> bool {
        le_value(self.bytes@) < scalar_modulus()
    }

    /// The scalar of value `v`, where there is one.
    pub(crate) closed spec fn of_value(v: int) -> Scalar {
        choose|s: Scalar| s.canonical() && s@ == v
    }

    /// A canonical scalar is the one that its value determines.
    pub(crate) proof fn lemma_of_value(self)
        requires
            self.canonical(),
        ensures
            self == Scalar::of_value(self@),
    {
        let t = Scalar::of_value(self@);
        assert(t.canonical() && t@ == self@);
        lemma_le_value_injective(t.bytes@, self.bytes@);
        assert(t.bytes =~= self.bytes);
    }

    /// A scalar is the one that its value determines.
    pub(crate) fn is_of_value(&self)
        ensures
            *self == Scalar::of_value(self@),
    {
        proof {
            use_type_invariant(self);
            self.lemma_of_value();
        }
    }

    /// The scalar's value lies in `[0, ℓ)`.
    pub fn value_in_range(&self)
        ensures
            0 <= self@ < scalar_modulus(),
    {
        proof {
            use_type_invariant(self);
            lemma_le_value_nonneg(self.bytes@);
        }
    }

    /// The little-endian encoding of the scalar.
    pub fn to_bytes(&self) -> (r: [u8; 32])
        ensures
            le_value(r@) == self@,
    {
        self.bytes
    }

    /// Decodes a scalar from its little-endian encoding; `None` where the
    /// value is not below `ℓ`.
    pub fn from_bytes(b: &[u8; 32]) -> (r: Option<Scalar>)
        ensures
            r is Some <==> le_value(b@) < scalar_modulus(),
            r matches Some(s) ==> s@ == le_value(b@),
    {
        if is_canonical_scalar(b) {
            Some(Scalar { bytes: *b })
        } else {
            None
        }
    }

    /// The scalar whose canonical encoding is `b`.
    pub(crate) fn from_canonical_bytes(b: [u8; 32]) -> (r: Scalar)
        requires
            le_value(b@) < scalar_modulus(),
        ensures
            r@ == le_value(b@),
    {
        Scalar { bytes: b }
    }

    /// The scalar of value `n`.
    pub fn from_u64(n: u64) -> (r: Scalar)
        ensures
            r@ == n,
    {
        Scalar { bytes: scalar_from_u64(n) }
    }

    /// Reduces 64 bytes, read as a little-endian integer, modulo `ℓ`. Given
    /// 64 uniformly random bytes, the result is a uniformly random scalar.
    pub fn from_bytes_wide(b: &[u8; 64]) -> (r: Scalar)
        ensures
            r@ == le_value(b@) % scalar_modulus(),
    {
        Scalar { bytes: scalar_from_wide(b) }
    }

    /// The sum of two scalars in the field.
    pub fn add(&self, other: &Scalar) -> (r: Scalar)
        ensures
            r@ == (self@ + other@) % scalar_modulus(),
    {
        proof {
            use_type_invariant(self);
            use_type_invariant(other);
        }
        Scalar { bytes: scalar_sum(&self.bytes, &other.bytes) }
    }
}

impl PartialEq for Scalar {
    /// Compares the two encodings in constant time.
    fn eq(&self, other: &Scalar) -> (r: bool) {
        let r = ct_bytes_eq(self.bytes.as_slice(), other.bytes.as_slice());
        proof {
            if self@ == other@ {
                lemma_le_value_injective(self.bytes@, other.bytes@);
            }
        }
        r
    }
}

impl vstd::std_specs::cmp::PartialEqSpecImpl for Scalar {
    open spec fn obeys_eq_spec() -> bool {
        true
    }

    open spec fn eq_spec(&self, other: &Scalar) -> bool {
        self@ == other@
    }
}

impl Eq for Scalar {}

} // verus!
