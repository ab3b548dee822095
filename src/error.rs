use vstd::prelude::*;

verus! {

/// The ways in which decoding a key or an address can fail.
#[derive(Copy, Clone, Debug, PartialEq, Eq, Structural)]
pub enum Error {
    /// The bytes are not the canonical encoding of a point of the prime-order
    /// subgroup, or a hex string holds a character that is not a hex digit.
    InvalidPoint,
    /// The bytes are not the canonical encoding of a scalar.
    InvalidParameters,
    /// The input does not have the length that the type's encoding has.
    BadLength {
        /// The length that was found.
        found: usize,
        /// The length that was expected.
        expected: usize,
    },
}

} // verus!
