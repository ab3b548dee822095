use vstd::prelude::*;

use crate::bytes::{array64_from_slice, concat32, split64};
use crate::error::Error;
use vstd::string::StringSliceAdditionalSpecFns;
use vstd::std_specs::convert::FromSpec;
use crate::hexstr::{from_hex, hex_bytes, hex_form, hex_len, hex_text, is_hex_str, to_hex};
use crate::permutation::hash;
use crate::point::{generator_times, is_log_of, is_subgroup_encoding, Point};
use crate::public_key::PublicKey;
use crate::scalar::Scalar;
use crate::secret_spend_key::SecretSpendKey;
use crate::stealth::{one_time_key, StealthAddress};

verus! {

/// The public pair `(A, B) = (a·G, b·G)` of a secret spend key `(a, b)`.
#[derive(Clone, Copy)]
pub struct PublicSpendKey {
    A: Point,
    B: Point,
}

impl View for PublicSpendKey {
    type V = (int, int);

    /// The discrete logarithms of `A` and of `B`.
    closed spec fn view(&self) -> (int, int) {
        (self.A@, self.B@)
    }
}

impl PublicSpendKey {
    /// The 64-byte encoding `A ‖ B`.
    pub open spec fn encoding(&self) -> Seq<u8> {
        generator_times(self@.0) + generator_times(self@.1)
    }

    /// Whether `bytes` is the 64-byte encoding `A ‖ B` of this value: each
    /// half encodes the point whose discrete logarithm the model holds.
    pub open spec fn is_encoded_by(&self, bytes: Seq<u8>) -> bool {
        &&& bytes.len() == 64
        &&& is_log_of(self@.0, bytes.subrange(0, 32))
        &&& is_log_of(self@.1, bytes.subrange(32, 64))
    }

    /// Whether both points are well formed; every key satisfies it.
    #[verifier::type_invariant]
    pub closed spec fn well_formed(&self) -> bool {
        self.A.well_formed() && self.B.well_formed()
    }

    /// Converting a secret spend key gives every well-formed key whose
    /// model is that secret spend key's.
    pub proof fn lemma_from_secret(self, ssk: SecretSpendKey)
        requires
            self.well_formed(),
            self@ == ssk@,
        ensures
            <PublicSpendKey as FromSpec<SecretSpendKey>>::from_spec(ssk) == self,
    {
        self.A.lemma_of_log();
        self.B.lemma_of_log();
    }

    /// The key of the pair `(A, B)`.
    pub fn new(A: Point, B: Point) -> (r: PublicSpendKey)
        ensures
            r@ == (A@, B@),
    {
        proof {
            use_type_invariant(&A);
            use_type_invariant(&B);
        }
        PublicSpendKey { A, B }
    }

    /// `A`, that is `a·G`.
    pub fn A(&self) -> (r: &Point)
        ensures
            r@ == self@.0,
    {
        &self.A
    }

    /// `B`, that is `b·G`.
    pub fn B(&self) -> (r: &Point)
        ensures
            r@ == self@.1,
    {
        &self.B
    }

    /// The stealth address `(R, pk_r) = (r·G, H(r·A)·G + B)` of the
    /// ephemeral scalar `r`, which must be fresh for each address.
    pub fn gen_stealth_address(&self, r: &Scalar) -> (sa: StealthAddress)
        ensures
            sa@ == (r@, one_time_key(self@.0, self@.1, r@)),
    {
        let R = Point::mul_generator(r);
        let rA = self.A.mul(r);
        let h = hash(&rA);
        let hG = Point::mul_generator(&h);
        let pk_r = PublicKey::from_raw_unchecked(hG.add(&self.B));
        StealthAddress::new(R, pk_r)
    }

    /// Encodes the key as `A ‖ B`, each point compressed.
    pub fn to_bytes(&self) -> (r: [u8; 64])
        ensures
            r@ == self.encoding(),
    {
        concat32(&self.A.to_bytes(), &self.B.to_bytes())
    }

    /// Decodes a key from `A ‖ B`; fails with `InvalidPoint` where either
    /// half does not encode a point of the prime-order subgroup.
    pub fn from_bytes(bytes: &[u8; 64]) -> (r: Result<PublicSpendKey, Error>)
        ensures
            r is Ok <==> is_subgroup_encoding(bytes@.subrange(0, 32))
                && is_subgroup_encoding(bytes@.subrange(32, 64)),
            r matches Ok(k) ==> k.is_encoded_by(bytes@),
            r is Err ==> r == Err::<PublicSpendKey, Error>(Error::InvalidPoint),
    {
        let (x, y) = split64(bytes);
        let A = match Point::from_bytes(&x) {
            Some(p) => p,
            None => return Err(Error::InvalidPoint),
        };
        let B = match Point::from_bytes(&y) {
            Some(p) => p,
            None => return Err(Error::InvalidPoint),
        };
        assert(bytes@ =~= bytes@.subrange(0, 32) + bytes@.subrange(32, 64));
        proof {
            use_type_invariant(&A);
            use_type_invariant(&B);
        }
        Ok(PublicSpendKey { A, B })
    }

    /// Decodes a key from a slice, which must hold exactly 64 bytes.
    pub fn from_slice(bytes: &[u8]) -> (r: Result<PublicSpendKey, Error>)
        ensures
            bytes@.len() != 64 ==> r == Err::<PublicSpendKey, Error>(
                Error::BadLength { found: bytes@.len() as usize, expected: 64 },
            ),
            bytes@.len() == 64 ==> (r is Ok <==> is_subgroup_encoding(bytes@.subrange(0, 32))
                && is_subgroup_encoding(bytes@.subrange(32, 64))),
            bytes@.len() == 64 && r is Err ==> r == Err::<PublicSpendKey, Error>(
                Error::InvalidPoint,
            ),
            r matches Ok(k) ==> k.is_encoded_by(bytes@),
    {
        if bytes.len() != 64 {
            return Err(Error::BadLength { found: bytes.len(), expected: 64 });
        }
        PublicSpendKey::from_bytes(&array64_from_slice(bytes))
    }

    /// The lower-case hex text of the 64-byte encoding.
    pub fn to_hex(&self) -> (r: String)
        ensures
            r@ == hex_text(self.encoding()),
    {
        let b = self.to_bytes();
        to_hex(b.as_slice(), false, false)
    }

    /// The hex text of the 64-byte encoding, in upper or lower case, after
    /// `0x` where `prefixed`.
    pub fn to_hex_with(&self, upper: bool, prefixed: bool) -> (r: String)
        ensures
            r@ == hex_form(self.encoding(), upper, prefixed),
    {
        let b = self.to_bytes();
        to_hex(b.as_slice(), upper, prefixed)
    }

    /// Decodes from hex text: an optional `0x`, then 128 hex digits in either
    /// case.
    pub fn from_hex_str(s: &str) -> (r: Result<PublicSpendKey, Error>)
        ensures
            hex_len(s) != 128 ==> r == Err::<PublicSpendKey, Error>(
                Error::BadLength { found: s.spec_bytes().len() as usize, expected: 128 },
            ),
            hex_len(s) == 128 && !is_hex_str(s) ==> r == Err::<PublicSpendKey, Error>(Error::InvalidPoint),
            hex_len(s) == 128 && is_hex_str(s) ==> (r is Ok <==> is_subgroup_encoding(hex_bytes(s).subrange(0, 32))
                && is_subgroup_encoding(hex_bytes(s).subrange(32, 64))),
            hex_len(s) == 128 && r is Err ==> r == Err::<PublicSpendKey, Error>(Error::InvalidPoint),
            r matches Ok(k) ==> k.is_encoded_by(hex_bytes(s)),
    {
        match from_hex(s, 64) {
            Ok(v) => PublicSpendKey::from_slice(v.as_slice()),
            Err(e) => Err(e),
        }
    }
}

impl From<SecretSpendKey> for PublicSpendKey {
    /// The key that `public_spend_key` derives.
    fn from(ssk: SecretSpendKey) -> (r: PublicSpendKey) {
        let r = ssk.public_spend_key();
        r.A.is_of_log();
        r.B.is_of_log();
        r
    }
}

impl vstd::std_specs::convert::FromSpecImpl<SecretSpendKey> for PublicSpendKey {
    open spec fn obeys_from_spec() -> bool {
        true
    }

    closed spec fn from_spec(ssk: SecretSpendKey) -> PublicSpendKey {
        PublicSpendKey { A: Point::of_log(ssk@.0), B: Point::of_log(ssk@.1) }
    }
}

impl PartialEq for PublicSpendKey {
    /// Compares both points in constant time.
    fn eq(&self, other: &PublicSpendKey) -> (r: bool) {
        let first = self.A == other.A;
        let second = self.B == other.B;
        first && second
    }
}

impl vstd::std_specs::cmp::PartialEqSpecImpl for PublicSpendKey {
    open spec fn obeys_eq_spec() -> bool {
        true
    }

    open spec fn eq_spec(&self, other: &PublicSpendKey) -> bool {
        self@ == other@
    }
}

impl Eq for PublicSpendKey {}

} // verus!
