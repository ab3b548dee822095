use vstd::prelude::*;

use crate::bytes::{array64_from_slice, concat32, le_value, split64};
use crate::error::Error;
use vstd::string::StringSliceAdditionalSpecFns;
use vstd::std_specs::convert::FromSpec;
use crate::hexstr::{from_hex, hex_bytes, hex_form, hex_len, hex_text, is_hex_str, to_hex};
use crate::permutation::hash;
use crate::point::{is_log_of, is_subgroup_encoding, Point};
use crate::public_spend_key::PublicSpendKey;
use crate::scalar::{scalar_modulus, Scalar};
use crate::secret_spend_key::SecretSpendKey;
use crate::stealth::{owns_address, Ownable};

verus! {

/// The view key `(a, B)` of a secret spend key `(a, b)`: the secret `a` and
/// the public `B = b·G`. It recognises the stealth addresses sent to the
/// spend key but cannot recover their one-time secrets.
#[derive(Clone, Copy)]
pub struct ViewKey {
    a: Scalar,
    B: Point,
}

impl View for ViewKey {
    type V = (int, int);

    /// The value of `a` and the discrete logarithm of `B`.
    closed spec fn view(&self) -> (int, int) {
        (self.a@, self.B@)
    }
}

impl ViewKey {
    /// The 64-byte encoding `a ‖ B`: the little-endian scalar, then the
    /// compressed point.
    pub open spec fn is_encoded_by(&self, bytes: Seq<u8>) -> bool {
        &&& bytes.len() == 64
        &&& le_value(bytes.subrange(0, 32)) == self@.0
        &&& is_log_of(self@.1, bytes.subrange(32, 64))
    }

    /// Whether `a` and `B` are well formed; every key satisfies it.
    #[verifier::type_invariant]
    pub closed spec fn well_formed(&self) -> bool {
        self.a.canonical() && self.B.well_formed()
    }

    /// Converting a secret spend key gives every well-formed key whose
    /// model is that secret spend key's.
    pub proof fn lemma_from_secret(self, ssk: SecretSpendKey)
        requires
            self.well_formed(),
            self@ == ssk@,
        ensures
            <ViewKey as FromSpec<SecretSpendKey>>::from_spec(ssk) == self,
    {
        self.a.lemma_of_value();
        self.B.lemma_of_log();
    }

    /// The key of the secret `a` and the point `B`.
    pub fn new(a: Scalar, B: Point) -> (r: ViewKey)
        ensures
            r@ == (a@, B@),
    {
        proof {
            use_type_invariant(&a);
            use_type_invariant(&B);
        }
        ViewKey { a, B }
    }

    /// The public spend key `(a·G, B)`.
    pub fn public_spend_key(&self) -> (r: PublicSpendKey)
        ensures
            r@ == self@,
    {
        let A = Point::mul_generator(&self.a);
        PublicSpendKey::new(A, self.B)
    }

    /// The secret `a`.
    pub fn a(&self) -> (r: &Scalar)
        ensures
            r@ == self@.0,
    {
        &self.a
    }

    /// `B`, that is `b·G`.
    pub fn B(&self) -> (r: &Point)
        ensures
            r@ == self@.1,
    {
        &self.B
    }

    /// Whether the address that `owner` carries was generated for this key:
    /// whether `H(a·R)·G + B` equals its `pk_r`.
    pub fn owns<O: Ownable>(&self, owner: &O) -> (r: bool)
        ensures
            r == owns_address(
                self@.0,
                self@.1,
                owner.address_model().0,
                owner.address_model().1,
            ),
    {
        let sa = owner.stealth_address();
        let aR = sa.R().mul(&self.a);
        let h = hash(&aR);
        let pk_r = Point::mul_generator(&h).add(&self.B);
        sa.address() == &pk_r
    }

    /// Encodes the key as `a ‖ B`.
    pub fn to_bytes(&self) -> (r: [u8; 64])
        ensures
            self.is_encoded_by(r@),
    {
        self.B.log_in_range();
        let x = self.a.to_bytes();
        let y = self.B.to_bytes();
        let r = concat32(&x, &y);
        assert(r@.subrange(0, 32) =~= x@);
        assert(r@.subrange(32, 64) =~= y@);
        r
    }

    /// Decodes a key from `a ‖ B`; fails with `InvalidParameters` where `a`
    /// is not a canonical scalar, else with `InvalidPoint` where `B` does not
    /// encode a point of the prime-order subgroup.
    pub fn from_bytes(bytes: &[u8; 64]) -> (r: Result<ViewKey, Error>)
        ensures
            r is Ok <==> le_value(bytes@.subrange(0, 32)) < scalar_modulus()
                && is_subgroup_encoding(bytes@.subrange(32, 64)),
            r matches Ok(k) ==> k.is_encoded_by(bytes@),
            le_value(bytes@.subrange(0, 32)) >= scalar_modulus() ==> r == Err::<ViewKey, Error>(
                Error::InvalidParameters,
            ),
            le_value(bytes@.subrange(0, 32)) < scalar_modulus() && !is_subgroup_encoding(
                bytes@.subrange(32, 64),
            ) ==> r == Err::<ViewKey, Error>(Error::InvalidPoint),
    {
        let (x, y) = split64(bytes);
        let a = match Scalar::from_bytes(&x) {
            Some(s) => s,
            None => return Err(Error::InvalidParameters),
        };
        let B = match Point::from_bytes(&y) {
            Some(p) => p,
            None => return Err(Error::InvalidPoint),
        };
        proof {
            use_type_invariant(&a);
            use_type_invariant(&B);
        }
        Ok(ViewKey { a, B })
    }

    /// Decodes a key from a slice, which must hold exactly 64 bytes.
    pub fn from_slice(bytes: &[u8]) -> (r: Result<ViewKey, Error>)
        ensures
            bytes@.len() != 64 ==> r == Err::<ViewKey, Error>(
                Error::BadLength { found: bytes@.len() as usize, expected: 64 },
            ),
            bytes@.len() == 64 ==> (r is Ok <==> le_value(bytes@.subrange(0, 32)) < scalar_modulus()
                && is_subgroup_encoding(bytes@.subrange(32, 64))),
            bytes@.len() == 64 && le_value(bytes@.subrange(0, 32)) >= scalar_modulus() ==> r
                == Err::<ViewKey, Error>(Error::InvalidParameters),
            bytes@.len() == 64 && le_value(bytes@.subrange(0, 32)) < scalar_modulus()
                && !is_subgroup_encoding(bytes@.subrange(32, 64)) ==> r == Err::<ViewKey, Error>(
                Error::InvalidPoint,
            ),
            r matches Ok(k) ==> k.is_encoded_by(bytes@),
    {
        if bytes.len() != 64 {
            return Err(Error::BadLength { found: bytes.len(), expected: 64 });
        }
        ViewKey::from_bytes(&array64_from_slice(bytes))
    }

    /// The lower-case hex text of the 64-byte encoding.
    pub fn to_hex(&self) -> (r: String)
        ensures
            exists|e: Seq<u8>| self.is_encoded_by(e) && r@ == hex_text(e),
    {
        let b = self.to_bytes();
        let r = to_hex(b.as_slice(), false, false);
        assert(self.is_encoded_by(b@) && r@ == hex_text(b@));
        r
    }

    /// The hex text of the 64-byte encoding, in upper or lower case, after
    /// `0x` where `prefixed`.
    pub fn to_hex_with(&self, upper: bool, prefixed: bool) -> (r: String)
        ensures
            exists|e: Seq<u8>| self.is_encoded_by(e) && r@ == hex_form(e, upper, prefixed),
    {
        let b = self.to_bytes();
        to_hex(b.as_slice(), upper, prefixed)
    }

    /// Decodes from hex text: an optional `0x`, then 128 hex digits in either
    /// case.
    pub fn from_hex_str(s: &str) -> (r: Result<ViewKey, Error>)
        ensures
            hex_len(s) != 128 ==> r == Err::<ViewKey, Error>(
                Error::BadLength { found: s.spec_bytes().len() as usize, expected: 128 },
            ),
            hex_len(s) == 128 && !is_hex_str(s) ==> r == Err::<ViewKey, Error>(Error::InvalidPoint),
            hex_len(s) == 128 && is_hex_str(s) ==> (r is Ok <==> le_value(hex_bytes(s).subrange(0, 32)) < scalar_modulus()
                && is_subgroup_encoding(hex_bytes(s).subrange(32, 64))),
            hex_len(s) == 128 && is_hex_str(s) && le_value(hex_bytes(s).subrange(0, 32))
                >= scalar_modulus() ==> r == Err::<ViewKey, Error>(Error::InvalidParameters),
            hex_len(s) == 128 && is_hex_str(s) && le_value(hex_bytes(s).subrange(0, 32))
                < scalar_modulus() && !is_subgroup_encoding(hex_bytes(s).subrange(32, 64)) ==> r
                == Err::<ViewKey, Error>(Error::InvalidPoint),
            r matches Ok(k) ==> k.is_encoded_by(hex_bytes(s)),
    {
        match from_hex(s, 64) {
            Ok(v) => ViewKey::from_slice(v.as_slice()),
            Err(e) => Err(e),
        }
    }
}

impl From<SecretSpendKey> for ViewKey {
    /// The key that `view_key` derives.
    fn from(ssk: SecretSpendKey) -> (r: ViewKey) {
        let r = ssk.view_key();
        r.a.is_of_value();
        r.B.is_of_log();
        r
    }
}

impl vstd::std_specs::convert::FromSpecImpl<SecretSpendKey> for ViewKey {
    open spec fn obeys_from_spec() -> bool {
        true
    }

    closed spec fn from_spec(ssk: SecretSpendKey) -> ViewKey {
        ViewKey { a: Scalar::of_value(ssk@.0), B: Point::of_log(ssk@.1) }
    }
}

impl PartialEq for ViewKey {
    /// Compares `a` and `B` alike in constant time.
    fn eq(&self, other: &ViewKey) -> (r: bool) {
        let first = self.a == other.a;
        let second = self.B == other.B;
        first && second
    }
}

impl vstd::std_specs::cmp::PartialEqSpecImpl for ViewKey {
    open spec fn obeys_eq_spec() -> bool {
        true
    }

    open spec fn eq_spec(&self, other: &ViewKey) -> bool {
        self@ == other@
    }
}

impl Eq for ViewKey {}

} // verus!
