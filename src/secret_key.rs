use vstd::prelude::*;

use crate::bytes::{array32_from_slice, le_value};
use crate::error::Error;
use vstd::string::StringSliceAdditionalSpecFns;
use vstd::std_specs::convert::FromSpec;
use crate::hexstr::{from_hex, hex_bytes, hex_form, hex_len, hex_text, is_hex_str, to_hex};
use crate::scalar::{scalar_modulus, Scalar};

verus! {

/// A secret key: a single scalar `s`.
#[derive(Clone, Copy, Debug)]
pub struct SecretKey(pub(crate) Scalar);

impl View for SecretKey {
    type V = int;

    closed spec fn view(&self) -> int {
        self.0@
    }
}

impl From<Scalar> for SecretKey {
    fn from(s: Scalar) -> (r: SecretKey) {
        SecretKey(s)
    }
}

impl vstd::std_specs::convert::FromSpecImpl<Scalar> for SecretKey {
    open spec fn obeys_from_spec() -> bool {
        true
    }

    closed spec fn from_spec(s: Scalar) -> SecretKey {
        SecretKey(s)
    }
}

impl SecretKey {
    /// Converting a scalar gives the key of that scalar.
    pub proof fn lemma_from_scalar(s: Scalar)
        ensures
            <SecretKey as FromSpec<Scalar>>::from_spec(s)@ == s@,
    {
    }

    /// The key of the scalar `s`.
    pub fn new(s: Scalar) -> (r: SecretKey)
        ensures
            r@ == s@,
    {
        SecretKey(s)
    }

    /// The key's scalar.
    pub fn as_ref(&self) -> (r: &Scalar)
        ensures
            r@ == self@,
    {
        &self.0
    }

    /// A key from 64 bytes of a cryptographically secure random source,
    /// reduced modulo `ℓ` into a uniformly random scalar.
    pub fn random(seed: &[u8; 64]) -> (r: SecretKey)
        ensures
            r@ == le_value(seed@) % scalar_modulus(),
    {
        SecretKey(Scalar::from_bytes_wide(seed))
    }

    /// The little-endian encoding of the key's scalar.
    pub fn to_bytes(&self) -> (r: [u8; 32])
        ensures
            le_value(r@) == self@,
    {
        self.0.to_bytes()
    }

    /// Decodes a key; fails with `InvalidParameters` where the value is not
    /// below `ℓ`.
    pub fn from_bytes(bytes: &[u8; 32]) -> (r: Result<SecretKey, Error>)
        ensures
            r is Ok <==> le_value(bytes@) < scalar_modulus(),
            r matches Ok(k) ==> k@ == le_value(bytes@),
            r is Err ==> r == Err::<SecretKey, Error>(Error::InvalidParameters),
    {
        match Scalar::from_bytes(bytes) {
            Some(s) => Ok(SecretKey(s)),
            None => Err(Error::InvalidParameters),
        }
    }

    /// Decodes a key from a slice, which must hold exactly 32 bytes.
    pub fn from_slice(bytes: &[u8]) -> (r: Result<SecretKey, Error>)
        ensures
            bytes@.len() != 32 ==> r == Err::<SecretKey, Error>(
                Error::BadLength { found: bytes@.len() as usize, expected: 32 },
            ),
            bytes@.len() == 32 ==> (r is Ok <==> le_value(bytes@) < scalar_modulus()),
            bytes@.len() == 32 && r is Err ==> r == Err::<SecretKey, Error>(
                Error::InvalidParameters,
            ),
            r matches Ok(k) ==> k@ == le_value(bytes@),
    {
        if bytes.len() != 32 {
            return Err(Error::BadLength { found: bytes.len(), expected: 32 });
        }
        SecretKey::from_bytes(&array32_from_slice(bytes))
    }

    /// The lower-case hex text of the 32-byte encoding.
    pub fn to_hex(&self) -> (r: String)
        ensures
            exists|e: Seq<u8>| e.len() == 32 && le_value(e) == self@ && r@ == hex_text(e),
    {
        let b = self.to_bytes();
        to_hex(b.as_slice(), false, false)
    }

    /// The hex text of the 32-byte encoding, in upper or lower case, after
    /// `0x` where `prefixed`.
    pub fn to_hex_with(&self, upper: bool, prefixed: bool) -> (r: String)
        ensures
            exists|e: Seq<u8>| e.len() == 32 && le_value(e) == self@ && r@ == hex_form(e, upper, prefixed),
    {
        let b = self.to_bytes();
        to_hex(b.as_slice(), upper, prefixed)
    }

    /// Decodes from hex text: an optional `0x`, then 64 hex digits in either
    /// case.
    pub fn from_hex_str(s: &str) -> (r: Result<SecretKey, Error>)
        ensures
            hex_len(s) != 64 ==> r == Err::<SecretKey, Error>(
                Error::BadLength { found: s.spec_bytes().len() as usize, expected: 64 },
            ),
            hex_len(s) == 64 && !is_hex_str(s) ==> r == Err::<SecretKey, Error>(Error::InvalidPoint),
            hex_len(s) == 64 && is_hex_str(s) ==> (r is Ok <==> le_value(hex_bytes(s)) < scalar_modulus()),
            hex_len(s) == 64 && is_hex_str(s) && r is Err ==> r == Err::<SecretKey, Error>(
                Error::InvalidParameters,
            ),
            r matches Ok(k) ==> k@ == le_value(hex_bytes(s)),
    {
        match from_hex(s, 32) {
            Ok(v) => SecretKey::from_slice(v.as_slice()),
            Err(e) => Err(e),
        }
    }
}

impl PartialEq for SecretKey {
    /// Compares the two scalars in constant time.
    fn eq(&self, other: &SecretKey) -> (r: bool) {
        self.0 == other.0
    }
}

impl vstd::std_specs::cmp::PartialEqSpecImpl for SecretKey {
    open spec fn obeys_eq_spec() -> bool {
        true
    }

    open spec fn eq_spec(&self, other: &SecretKey) -> bool {
        self@ == other@
    }
}

impl Eq for SecretKey {}

} // verus!
