use vstd::prelude::*;

use crate::bytes::{array32_from_slice, le_value};
use crate::error::Error;
use crate::point::{is_subgroup_encoding, Point};
use crate::scalar::{scalar_modulus, Scalar};

verus! {

/// A value with a fixed encoding of 32 bytes.
pub trait From32Bytes: Sized {
    /// Whether `bytes` is the encoding of some value.
    spec fn accepts(bytes: Seq<u8>) -> bool;

    /// Whether `bytes` is the encoding of `self`.
    spec fn encoded_by(&self, bytes: Seq<u8>) -> bool;

    /// Decodes a value; `None` where the bytes encode none.
    fn from_32_bytes(bytes: [u8; 32]) -> (r: Option<Self>)
        ensures
            r is Some <==> Self::accepts(bytes@),
            r matches Some(v) ==> v.encoded_by(bytes@),
    ;
}

impl From32Bytes for Scalar {
    open spec fn accepts(bytes: Seq<u8>) -> bool {
        le_value(bytes) < scalar_modulus()
    }

    open spec fn encoded_by(&self, bytes: Seq<u8>) -> bool {
        self@ == le_value(bytes)
    }

    fn from_32_bytes(bytes: [u8; 32]) -> (r: Option<Scalar>) {
        Scalar::from_bytes(&bytes)
    }
}

impl From32Bytes for Point {
    open spec fn accepts(bytes: Seq<u8>) -> bool {
        is_subgroup_encoding(bytes)
    }

    open spec fn encoded_by(&self, bytes: Seq<u8>) -> bool {
        self.encoding() == bytes
    }

    fn from_32_bytes(bytes: [u8; 32]) -> (r: Option<Point>) {
        Point::from_bytes(&bytes)
    }
}

/// Decodes a scalar or a point from exactly 32 bytes.
pub fn decode<T: From32Bytes>(bytes: &[u8]) -> (r: Result<T, Error>)
    ensures
        bytes@.len() != 32 ==> r == Err::<T, Error>(
            Error::BadLength { found: bytes@.len() as usize, expected: 32 },
        ),
        bytes@.len() == 32 ==> (r is Ok <==> T::accepts(bytes@)),
        bytes@.len() == 32 && !T::accepts(bytes@) ==> r == Err::<T, Error>(Error::InvalidParameters),
        r matches Ok(v) ==> v.encoded_by(bytes@),
{
    if bytes.len() != 32 {
        return Err(Error::BadLength { found: bytes.len(), expected: 32 });
    }
    let array = array32_from_slice(bytes);
    match T::from_32_bytes(array) {
        Some(v) => Ok(v),
        None => Err(Error::InvalidParameters),
    }
}

} // verus!
