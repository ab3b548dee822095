use vstd::prelude::*;

use crate::bytes::{array64_from_slice, concat32, split64};
use crate::error::Error;
use vstd::string::StringSliceAdditionalSpecFns;
use crate::hexstr::{from_hex, hex_bytes, hex_form, hex_len, hex_text, is_hex_str, to_hex};
use crate::permutation::point_hash;
use crate::point::{generator_times, is_log_of, is_subgroup_encoding, Point};
use crate::public_key::PublicKey;
use crate::scalar::scalar_modulus;

verus! {

/// The discrete logarithm of the one-time key `pk_r = H(r·A)·G + B` that the
/// ephemeral scalar `r` gives for the public spend key `(A, B)`, where
/// `A = a_log·G` and `B = b_log·G`.
pub open spec fn one_time_key(a_log: int, b_log: int, r: int) -> int {
    (point_hash((a_log * r) % scalar_modulus()) + b_log) % scalar_modulus()
}

/// The one-time secret `H(a·R) + b` that the secret spend key `(a, b)`
/// recovers from a stealth address whose `R` is `r_log·G`.
pub open spec fn one_time_secret(a: int, b: int, r_log: int) -> int {
    (point_hash((r_log * a) % scalar_modulus()) + b) % scalar_modulus()
}

/// Whether the view key `(a, B)`, with `B = b_log·G`, recognises the stealth
/// address `(R, pk_r)`, with `R = r_log·G` and `pk_r = pk_log·G`: whether
/// `H(a·R)·G + B` is `pk_r`.
pub open spec fn owns_address(a: int, b_log: int, r_log: int, pk_log: int) -> bool {
    one_time_secret(a, b_log, r_log) == pk_log
}

/// A one-time address `(R, pk_r)`: the sender's ephemeral point `R = r·G`
/// and the one-time public key `pk_r`, the address proper.
#[derive(Clone, Copy)]
pub struct StealthAddress {
    R: Point,
    pk_r: PublicKey,
}

/// A value that carries a stealth address, and can so be tested for
/// ownership.
pub trait Ownable {
    /// The model of the carried address.
    spec fn address_model(&self) -> (int, int);

    /// The carried address.
    fn stealth_address(&self) -> (r: &StealthAddress)
        ensures
            r@ == self.address_model(),
    ;
}

impl View for StealthAddress {
    type V = (int, int);

    /// The discrete logarithms of `R` and of `pk_r`.
    closed spec fn view(&self) -> (int, int) {
        (self.R@, self.pk_r@)
    }
}

impl Ownable for StealthAddress {
    open spec fn address_model(&self) -> (int, int) {
        self@
    }

    fn stealth_address(&self) -> (r: &StealthAddress) {
        self
    }
}

impl StealthAddress {
    /// The 64-byte encoding `R ‖ pk_r`.
    pub open spec fn encoding(&self) -> Seq<u8> {
        generator_times(self@.0) + generator_times(self@.1)
    }

    /// Whether `bytes` is the 64-byte encoding `R ‖ pk_r` of this value: each
    /// half encodes the point whose discrete logarithm the model holds.
    pub open spec fn is_encoded_by(&self, bytes: Seq<u8>) -> bool {
        &&& bytes.len() == 64
        &&& is_log_of(self@.0, bytes.subrange(0, 32))
        &&& is_log_of(self@.1, bytes.subrange(32, 64))
    }

    /// The address of the two points.
    pub(crate) fn new(R: Point, pk_r: PublicKey) -> (r: StealthAddress)
        ensures
            r@ == (R@, pk_r@),
    {
        StealthAddress { R, pk_r }
    }

    /// The ephemeral point `R`.
    pub fn R(&self) -> (r: &Point)
        ensures
            r@ == self@.0,
    {
        &self.R
    }

    /// The one-time public key `pk_r`.
    pub fn pk_r(&self) -> (r: &PublicKey)
        ensures
            r@ == self@.1,
    {
        &self.pk_r
    }

    /// The point of `pk_r`.
    pub fn address(&self) -> (r: &Point)
        ensures
            r@ == self@.1,
    {
        self.pk_r.as_ref()
    }

    /// Encodes the address as `R ‖ pk_r`, each point compressed.
    pub fn to_bytes(&self) -> (r: [u8; 64])
        ensures
            r@ == self.encoding(),
    {
        concat32(&self.R.to_bytes(), &self.pk_r.to_bytes())
    }

    /// Decodes an address from `R ‖ pk_r`; fails with `InvalidPoint` where
    /// either half does not encode a point of the prime-order subgroup.
    pub fn from_bytes(bytes: &[u8; 64]) -> (r: Result<StealthAddress, Error>)
        ensures
            r is Ok <==> is_subgroup_encoding(bytes@.subrange(0, 32))
                && is_subgroup_encoding(bytes@.subrange(32, 64)),
            r matches Ok(sa) ==> sa.is_encoded_by(bytes@),
            r is Err ==> r == Err::<StealthAddress, Error>(Error::InvalidPoint),
    {
        let (x, y) = split64(bytes);
        let R = match Point::from_bytes(&x) {
            Some(p) => p,
            None => return Err(Error::InvalidPoint),
        };
        let pk_r = match PublicKey::from_bytes(&y) {
            Ok(k) => k,
            Err(_) => return Err(Error::InvalidPoint),
        };
        assert(bytes@ =~= bytes@.subrange(0, 32) + bytes@.subrange(32, 64));
        Ok(StealthAddress { R, pk_r })
    }

    /// Decodes an address from a slice, which must hold exactly 64 bytes.
    pub fn from_slice(bytes: &[u8]) -> (r: Result<StealthAddress, Error>)
        ensures
            bytes@.len() != 64 ==> r == Err::<StealthAddress, Error>(
                Error::BadLength { found: bytes@.len() as usize, expected: 64 },
            ),
            bytes@.len() == 64 ==> (r is Ok <==> is_subgroup_encoding(bytes@.subrange(0, 32))
                && is_subgroup_encoding(bytes@.subrange(32, 64))),
            bytes@.len() == 64 && r is Err ==> r == Err::<StealthAddress, Error>(
                Error::InvalidPoint,
            ),
            r matches Ok(sa) ==> sa.is_encoded_by(bytes@),
    {
        if bytes.len() != 64 {
            return Err(Error::BadLength { found: bytes.len(), expected: 64 });
        }
        StealthAddress::from_bytes(&array64_from_slice(bytes))
    }

    /// The lower-case hex text of the 64-byte encoding.
    pub fn to_hex(&self) -> (r: String)
        ensures
            r@ == hex_text(self.encoding()),
    {
        let b = self.to_bytes();
        to_hex(b.as_slice(), false, false)
    }

    /// The hex text of the 64-byte encoding, in upper or lower case, after
    /// `0x` where `prefixed`.
    pub fn to_hex_with(&self, upper: bool, prefixed: bool) -> (r: String)
        ensures
            r@ == hex_form(self.encoding(), upper, prefixed),
    {
        let b = self.to_bytes();
        to_hex(b.as_slice(), upper, prefixed)
    }

    /// Decodes from hex text: an optional `0x`, then 128 hex digits in either
    /// case.
    pub fn from_hex_str(s: &str) -> (r: Result<StealthAddress, Error>)
        ensures
            hex_len(s) != 128 ==> r == Err::<StealthAddress, Error>(
                Error::BadLength { found: s.spec_bytes().len() as usize, expected: 128 },
            ),
            hex_len(s) == 128 && !is_hex_str(s) ==> r == Err::<StealthAddress, Error>(Error::InvalidPoint),
            hex_len(s) == 128 && is_hex_str(s) ==> (r is Ok <==> is_subgroup_encoding(hex_bytes(s).subrange(0, 32))
                && is_subgroup_encoding(hex_bytes(s).subrange(32, 64))),
            hex_len(s) == 128 && r is Err ==> r == Err::<StealthAddress, Error>(Error::InvalidPoint),
            r matches Ok(k) ==> k.is_encoded_by(hex_bytes(s)),
    {
        match from_hex(s, 64) {
            Ok(v) => StealthAddress::from_slice(v.as_slice()),
            Err(e) => Err(e),
        }
    }
}

impl PartialEq for StealthAddress {
    /// Compares both points in constant time.
    fn eq(&self, other: &StealthAddress) -> (r: bool) {
        let first = self.R == other.R;
        let second = self.pk_r == other.pk_r;
        first && second
    }
}

impl vstd::std_specs::cmp::PartialEqSpecImpl for StealthAddress {
    open spec fn obeys_eq_spec() -> bool {
        true
    }

    open spec fn eq_spec(&self, other: &StealthAddress) -> bool {
        self@ == other@
    }
}

impl Eq for StealthAddress {}

} // verus!
