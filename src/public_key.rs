use vstd::prelude::*;

use crate::bytes::array32_from_slice;
use crate::error::Error;
use vstd::string::StringSliceAdditionalSpecFns;
use vstd::std_specs::convert::FromSpec;
use crate::hexstr::{from_hex, hex_bytes, hex_form, hex_len, hex_text, is_hex_str, to_hex};
use crate::point::{is_log_of, is_subgroup_encoding, Point};
use crate::secret_key::SecretKey;

verus! {

/// A public key: a point `P` of the prime-order subgroup, `P = s·G` where it
/// was derived from the secret key `s`.
#[derive(Clone, Copy)]
pub struct PublicKey(pub(crate) Point);

impl View for PublicKey {
    type V = int;

    /// The discrete logarithm of the key's point.
    closed spec fn view(&self) -> int {
        self.0@
    }
}

impl PublicKey {
    /// The compressed encoding of the key's point.
    pub open spec fn encoding(&self) -> Seq<u8> {
        crate::point::generator_times(self@)
    }

    /// Converting a point gives the key of that point.
    pub proof fn lemma_from_point(p: Point)
        ensures
            <PublicKey as FromSpec<Point>>::from_spec(p)@ == p@,
    {
    }

    /// The public key `s·G` of the secret key `s`.
    pub fn from_secret(sk: &SecretKey) -> (r: PublicKey)
        ensures
            r@ == sk@,
    {
        PublicKey(Point::mul_generator(sk.as_ref()))
    }

    /// A public key made directly of a point. Nothing guarantees that anyone
    /// knows its secret key.
    pub fn from_raw_unchecked(key: Point) -> (r: PublicKey)
        ensures
            r@ == key@,
    {
        PublicKey(key)
    }

    /// The key's point.
    pub fn as_ref(&self) -> (r: &Point)
        ensures
            r@ == self@,
    {
        &self.0
    }

    /// The compressed encoding of the key's point.
    pub fn to_bytes(&self) -> (r: [u8; 32])
        ensures
            r@ == self.encoding(),
    {
        self.0.to_bytes()
    }

    /// Decodes a key; fails with `InvalidPoint` where the bytes do not
    /// encode a point of the prime-order subgroup.
    pub fn from_bytes(bytes: &[u8; 32]) -> (r: Result<PublicKey, Error>)
        ensures
            r is Ok <==> is_subgroup_encoding(bytes@),
            r matches Ok(k) ==> is_log_of(k@, bytes@),
            r is Err ==> r == Err::<PublicKey, Error>(Error::InvalidPoint),
    {
        match Point::from_bytes(bytes) {
            Some(p) => Ok(PublicKey(p)),
            None => Err(Error::InvalidPoint),
        }
    }

    /// Decodes a key from a slice, which must hold exactly 32 bytes.
    pub fn from_slice(bytes: &[u8]) -> (r: Result<PublicKey, Error>)
        ensures
            bytes@.len() != 32 ==> r == Err::<PublicKey, Error>(
                Error::BadLength { found: bytes@.len() as usize, expected: 32 },
            ),
            bytes@.len() == 32 ==> (r is Ok <==> is_subgroup_encoding(bytes@)),
            bytes@.len() == 32 && r is Err ==> r == Err::<PublicKey, Error>(Error::InvalidPoint),
            r matches Ok(k) ==> is_log_of(k@, bytes@),
    {
        if bytes.len() != 32 {
            return Err(Error::BadLength { found: bytes.len(), expected: 32 });
        }
        PublicKey::from_bytes(&array32_from_slice(bytes))
    }

    /// The lower-case hex text of the 32-byte encoding.
    pub fn to_hex(&self) -> (r: String)
        ensures
            r@ == hex_text(self.encoding()),
    {
        let b = self.to_bytes();
        to_hex(b.as_slice(), false, false)
    }

    /// The hex text of the 32-byte encoding, in upper or lower case, after
    /// `0x` where `prefixed`.
    pub fn to_hex_with(&self, upper: bool, prefixed: bool) -> (r: String)
        ensures
            r@ == hex_form(self.encoding(), upper, prefixed),
    {
        let b = self.to_bytes();
        to_hex(b.as_slice(), upper, prefixed)
    }

    /// Decodes from hex text: an optional `0x`, then 64 hex digits in either
    /// case.
    pub fn from_hex_str(s: &str) -> (r: Result<PublicKey, Error>)
        ensures
            hex_len(s) != 64 ==> r == Err::<PublicKey, Error>(
                Error::BadLength { found: s.spec_bytes().len() as usize, expected: 64 },
            ),
            hex_len(s) == 64 && !is_hex_str(s) ==> r == Err::<PublicKey, Error>(Error::InvalidPoint),
            hex_len(s) == 64 && is_hex_str(s) ==> (r is Ok <==> is_subgroup_encoding(hex_bytes(s))),
            hex_len(s) == 64 && r is Err ==> r == Err::<PublicKey, Error>(Error::InvalidPoint),
            r matches Ok(k) ==> is_log_of(k@, hex_bytes(s)),
    {
        match from_hex(s, 32) {
            Ok(v) => PublicKey::from_slice(v.as_slice()),
            Err(e) => Err(e),
        }
    }
}

impl From<Point> for PublicKey {
    fn from(p: Point) -> (r: PublicKey) {
        PublicKey(p)
    }
}

impl vstd::std_specs::convert::FromSpecImpl<Point> for PublicKey {
    open spec fn obeys_from_spec() -> bool {
        true
    }

    closed spec fn from_spec(p: Point) -> PublicKey {
        PublicKey(p)
    }
}

impl PartialEq for PublicKey {
    /// Compares the two encodings in constant time, so that one point
    /// obtained through different computations compares equal.
    fn eq(&self, other: &PublicKey) -> (r: bool) {
        self.0 == other.0
    }
}

impl vstd::std_specs::cmp::PartialEqSpecImpl for PublicKey {
    open spec fn obeys_eq_spec() -> bool {
        true
    }

    open spec fn eq_spec(&self, other: &PublicKey) -> bool {
        self@ == other@
    }
}

impl Eq for PublicKey {}

} // verus!
