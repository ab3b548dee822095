use vstd::prelude::*;

use crate::bytes::{array64_from_slice, concat32, le_value, split64};
use crate::error::Error;
use vstd::string::StringSliceAdditionalSpecFns;
use crate::hexstr::{from_hex, hex_bytes, hex_form, hex_len, hex_text, is_hex_str, to_hex};
use crate::permutation::hash;
use crate::point::Point;
use crate::public_spend_key::PublicSpendKey;
use crate::scalar::{scalar_modulus, Scalar};
use crate::secret_key::SecretKey;
use crate::stealth::{one_time_secret, StealthAddress};
use crate::view::ViewKey;

verus! {

/// The secret pair `(a, b)` of a spend key.
#[derive(Clone, Copy, Debug)]
pub struct SecretSpendKey {
    a: Scalar,
    b: Scalar,
}

impl View for SecretSpendKey {
    type V = (int, int);

    /// The values of `a` and of `b`.
    closed spec fn view(&self) -> (int, int) {
        (self.a@, self.b@)
    }
}

impl SecretSpendKey {
    /// Whether `bytes` is the 64-byte encoding `a ‖ b`, each scalar in
    /// little-endian order.
    pub open spec fn is_encoded_by(&self, bytes: Seq<u8>) -> bool {
        &&& bytes.len() == 64
        &&& le_value(bytes.subrange(0, 32)) == self@.0
        &&& le_value(bytes.subrange(32, 64)) == self@.1
    }

    /// The key of the pair `(a, b)`.
    pub fn new(a: Scalar, b: Scalar) -> (r: SecretSpendKey)
        ensures
            r@ == (a@, b@),
    {
        SecretSpendKey { a, b }
    }

    /// The secret `a`.
    pub fn a(&self) -> (r: &Scalar)
        ensures
            r@ == self@.0,
    {
        &self.a
    }

    /// The secret `b`.
    pub fn b(&self) -> (r: &Scalar)
        ensures
            r@ == self@.1,
    {
        &self.b
    }

    /// A key from two independent draws of 64 bytes from a cryptographically
    /// secure random source, each reduced modulo `ℓ`.
    pub fn random(seed_a: &[u8; 64], seed_b: &[u8; 64]) -> (r: SecretSpendKey)
        ensures
            r@ == (le_value(seed_a@) % scalar_modulus(), le_value(seed_b@) % scalar_modulus()),
    {
        SecretSpendKey::new(Scalar::from_bytes_wide(seed_a), Scalar::from_bytes_wide(seed_b))
    }

    /// The one-time secret `sk_r = H(a·R) + b` of the stealth address. Where
    /// the address was generated for this key, `sk_r·G` is its `pk_r`.
    pub fn sk_r(&self, sa: &StealthAddress) -> (r: SecretKey)
        ensures
            r@ == one_time_secret(self@.0, self@.1, sa@.0),
    {
        let aR = sa.R().mul(&self.a);
        let h = hash(&aR);
        SecretKey::new(h.add(&self.b))
    }

    /// The public spend key `(a·G, b·G)`.
    pub fn public_spend_key(&self) -> (r: PublicSpendKey)
        ensures
            r@ == self@,
    {
        let A = Point::mul_generator(&self.a);
        let B = Point::mul_generator(&self.b);
        PublicSpendKey::new(A, B)
    }

    /// The view key `(a, b·G)`.
    pub fn view_key(&self) -> (r: ViewKey)
        ensures
            r@ == self@,
    {
        let B = Point::mul_generator(&self.b);
        ViewKey::new(self.a, B)
    }

    /// Encodes the key as `a ‖ b`.
    pub fn to_bytes(&self) -> (r: [u8; 64])
        ensures
            self.is_encoded_by(r@),
    {
        let x = self.a.to_bytes();
        let y = self.b.to_bytes();
        let r = concat32(&x, &y);
        assert(r@.subrange(0, 32) =~= x@);
        assert(r@.subrange(32, 64) =~= y@);
        r
    }

    /// Decodes a key from `a ‖ b`; fails with `InvalidParameters` where
    /// either half is not a canonical scalar.
    pub fn from_bytes(bytes: &[u8; 64]) -> (r: Result<SecretSpendKey, Error>)
        ensures
            r is Ok <==> le_value(bytes@.subrange(0, 32)) < scalar_modulus()
                && le_value(bytes@.subrange(32, 64)) < scalar_modulus(),
            r matches Ok(k) ==> k.is_encoded_by(bytes@),
            r is Err ==> r == Err::<SecretSpendKey, Error>(Error::InvalidParameters),
    {
        let (x, y) = split64(bytes);
        let a = match Scalar::from_bytes(&x) {
            Some(s) => s,
            None => return Err(Error::InvalidParameters),
        };
        let b = match Scalar::from_bytes(&y) {
            Some(s) => s,
            None => return Err(Error::InvalidParameters),
        };
        Ok(SecretSpendKey { a, b })
    }

    /// Decodes a key from a slice, which must hold exactly 64 bytes.
    pub fn from_slice(bytes: &[u8]) -> (r: Result<SecretSpendKey, Error>)
        ensures
            bytes@.len() != 64 ==> r == Err::<SecretSpendKey, Error>(
                Error::BadLength { found: bytes@.len() as usize, expected: 64 },
            ),
            bytes@.len() == 64 ==> (r is Ok <==> le_value(bytes@.subrange(0, 32)) < scalar_modulus()
                && le_value(bytes@.subrange(32, 64)) < scalar_modulus()),
            bytes@.len() == 64 && r is Err ==> r == Err::<SecretSpendKey, Error>(
                Error::InvalidParameters,
            ),
            r matches Ok(k) ==> k.is_encoded_by(bytes@),
    {
        if bytes.len() != 64 {
            return Err(Error::BadLength { found: bytes.len(), expected: 64 });
        }
        SecretSpendKey::from_bytes(&array64_from_slice(bytes))
    }

    /// The lower-case hex text of the 64-byte encoding.
    pub fn to_hex(&self) -> (r: String)
        ensures
            exists|e: Seq<u8>| self.is_encoded_by(e) && r@ == hex_text(e),
    {
        let b = self.to_bytes();
        let r = to_hex(b.as_slice(), false, false);
        assert(self.is_encoded_by(b@) && r@ == hex_text(b@));
        r
    }

    /// The hex text of the 64-byte encoding, in upper or lower case, after
    /// `0x` where `prefixed`.
    pub fn to_hex_with(&self, upper: bool, prefixed: bool) -> (r: String)
        ensures
            exists|e: Seq<u8>| self.is_encoded_by(e) && r@ == hex_form(e, upper, prefixed),
    {
        let b = self.to_bytes();
        to_hex(b.as_slice(), upper, prefixed)
    }

    /// Decodes from hex text: an optional `0x`, then 128 hex digits in either
    /// case.
    pub fn from_hex_str(s: &str) -> (r: Result<SecretSpendKey, Error>)
        ensures
            hex_len(s) != 128 ==> r == Err::<SecretSpendKey, Error>(
                Error::BadLength { found: s.spec_bytes().len() as usize, expected: 128 },
            ),
            hex_len(s) == 128 && !is_hex_str(s) ==> r == Err::<SecretSpendKey, Error>(Error::InvalidPoint),
            hex_len(s) == 128 && is_hex_str(s) ==> (r is Ok <==> le_value(hex_bytes(s).subrange(0, 32)) < scalar_modulus()
                && le_value(hex_bytes(s).subrange(32, 64)) < scalar_modulus()),
            hex_len(s) == 128 && is_hex_str(s) && r is Err ==> r == Err::<SecretSpendKey, Error>(
                Error::InvalidParameters,
            ),
            r matches Ok(k) ==> k.is_encoded_by(hex_bytes(s)),
    {
        match from_hex(s, 64) {
            Ok(v) => SecretSpendKey::from_slice(v.as_slice()),
            Err(e) => Err(e),
        }
    }
}

impl PartialEq for SecretSpendKey {
    /// Compares `a` and `b` alike in constant time.
    fn eq(&self, other: &SecretSpendKey) -> (r: bool) {
        let first = self.a == other.a;
        let second = self.b == other.b;
        first && second
    }
}

impl vstd::std_specs::cmp::PartialEqSpecImpl for SecretSpendKey {
    open spec fn obeys_eq_spec() -> bool {
        true
    }

    open spec fn eq_spec(&self, other: &SecretSpendKey) -> bool {
        self@ == other@
    }
}

impl Eq for SecretSpendKey {}

} // verus!
