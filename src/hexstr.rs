use vstd::prelude::*;

use crate::error::Error;
use vstd::string::StringExecFns;
use vstd::string::StringSliceAdditionalSpecFns;

verus! {

/// The value of the hex digit `c`, in either case; `-1` where `c` is none.
pub open spec fn hex_digit(c: u8) -> int {
    if 0x30 <= c <= 0x39 {
        c - 0x30
    } else if 0x61 <= c <= 0x66 {
        c - 0x61 + 10
    } else if 0x41 <= c <= 0x46 {
        c - 0x41 + 10
    } else {
        -1
    }
}

/// Whether `t` is an even number of hex digits.
pub open spec fn is_hex_text(t: Seq<u8>) -> bool {
    &&& t.len() % 2 == 0
    &&& forall|i: int| 0 <= i < t.len() ==> hex_digit(#[trigger] t[i]) >= 0
}

/// The bytes that the hex digits `t` spell, two digits to a byte, the high
/// half first.
pub open spec fn hex_decoded(t: Seq<u8>) -> Seq<u8> {
    Seq::new((t.len() / 2) as nat, |i: int| (16 * hex_digit(t[2 * i]) + hex_digit(t[2 * i + 1])) as u8)
}

/// `t` without its leading `0x`, where it has one.
pub open spec fn hex_payload(t: Seq<u8>) -> Seq<u8> {
    if t.len() >= 2 && t[0] == 0x30 && t[1] == 0x78 {
        t.subrange(2, t.len() as int)
    } else {
        t
    }
}

/// The lower-case hex digit of `n`, for `n` in `[0, 16)`.
pub open spec fn lower_hex_digit(n: int) -> char {
    if n < 10 {
        ((0x30 + n) as u8) as char
    } else {
        ((0x61 + n - 10) as u8) as char
    }
}

/// The upper-case hex digit of `n`, for `n` in `[0, 16)`.
pub open spec fn upper_hex_digit(n: int) -> char {
    if n < 10 {
        ((0x30 + n) as u8) as char
    } else {
        ((0x41 + n - 10) as u8) as char
    }
}

/// The hex digits of `b`, two to a byte, the high half first, in upper or
/// lower case.
pub open spec fn hex_digits(b: Seq<u8>, upper: bool) -> Seq<char> {
    Seq::new(
        2 * b.len(),
        |i: int|
            {
                let n = if i % 2 == 0 {
                    b[i / 2] as int / 16
                } else {
                    b[i / 2] as int % 16
                };
                if upper {
                    upper_hex_digit(n)
                } else {
                    lower_hex_digit(n)
                }
            },
    )
}

/// The lower-case hex text of `b`.
pub open spec fn hex_text(b: Seq<u8>) -> Seq<char> {
    hex_digits(b, false)
}

/// The hex text of `b` in the given case, after `0x` where `prefixed`.
pub open spec fn hex_form(b: Seq<u8>, upper: bool, prefixed: bool) -> Seq<char> {
    if prefixed {
        seq!['0', 'x'] + hex_digits(b, upper)
    } else {
        hex_digits(b, upper)
    }
}

/// The number of characters of `s` after its optional `0x`.
pub open spec fn hex_len(s: &str) -> int {
    hex_payload(s.spec_bytes()).len() as int
}

/// Whether `s`, after its optional `0x`, is hex digits only, in even number.
pub open spec fn is_hex_str(s: &str) -> bool {
    is_hex_text(hex_payload(s.spec_bytes()))
}

/// The bytes that `s` spells after its optional `0x`.
pub open spec fn hex_bytes(s: &str) -> Seq<u8> {
    hex_decoded(hex_payload(s.spec_bytes()))
}

/// Relies on `hex::decode`, which accepts an even number of hex digits in
/// either case and gives the bytes they spell.
#[verifier::external_body]
fn decode_hex(t: &[u8]) -> (r: Option<Vec<u8>>)
    ensures
        r is Some <==> is_hex_text(t@),
        r matches Some(v) ==> v@ == hex_decoded(t@),
{
    hex::decode(t).ok()
}

/// Relies on `hex::encode`, which writes each byte as two lower-case hex
/// digits.
#[verifier::external_body]
fn encode_hex(b: &[u8]) -> (r: String)
    ensures
        r@ == hex_text(b@),
{
    hex::encode(b)
}

/// Relies on `hex::encode_upper`, which writes each byte as two upper-case
/// hex digits.
#[verifier::external_body]
fn encode_hex_upper(b: &[u8]) -> (r: String)
    ensures
        r@ == hex_digits(b@, true),
{
    hex::encode_upper(b)
}

/// The hex text of an encoding, in the given case, after `0x` where
/// `prefixed`.
pub fn to_hex(b: &[u8], upper: bool, prefixed: bool) -> (r: String)
    ensures
        r@ == hex_form(b@, upper, prefixed),
{
    let digits = if upper {
        encode_hex_upper(b)
    } else {
        encode_hex(b)
    };
    if prefixed {
        let prefix = String::from_str("0x");
        proof {
            reveal_strlit("0x");
        }
        prefix.concat(digits.as_str())
    } else {
        digits
    }
}

/// Reads the hex text of an encoding of `n` bytes: an optional `0x`, then
/// `2n` hex digits in either case. Fails with `BadLength`, which reports
/// the length of the whole text, where the digits are not `2n` characters,
/// and with `InvalidPoint` where one is not a hex digit.
pub fn from_hex(s: &str, n: usize) -> (r: Result<Vec<u8>, Error>)
    requires
        n <= 64,
    ensures
        hex_payload(s.spec_bytes()).len() != 2 * n ==> r == Err::<Vec<u8>, Error>(
            Error::BadLength { found: s.spec_bytes().len() as usize, expected: (2 * n) as usize },
        ),
        hex_payload(s.spec_bytes()).len() == 2 * n ==> (r is Ok <==> is_hex_text(
            hex_payload(s.spec_bytes()),
        )),
        hex_payload(s.spec_bytes()).len() == 2 * n && r is Err ==> r == Err::<Vec<u8>, Error>(
            Error::InvalidPoint,
        ),
        r matches Ok(v) ==> v@ == hex_decoded(hex_payload(s.spec_bytes())),
{
    let t = s.as_bytes();
    let start: usize = if t.len() >= 2 && t[0] == 0x30 && t[1] == 0x78 {
        2
    } else {
        0
    };
    let ghost p = hex_payload(t@);
    let mut payload: Vec<u8> = Vec::new();
    let mut i: usize = start;
    while i < t.len()
        invariant
            start <= i <= t@.len(),
            p == t@.subrange(start as int, t@.len() as int),
            payload@ == t@.subrange(start as int, i as int),
        decreases t@.len() - i,
    {
        payload.push(t[i]);
        i = i + 1;
        assert(payload@ =~= t@.subrange(start as int, i as int));
    }
    assert(payload@ =~= p);
    if payload.len() != 2 * n {
        return Err(Error::BadLength { found: t.len(), expected: 2 * n });
    }
    match decode_hex(payload.as_slice()) {
        Some(v) => Ok(v),
        None => Err(Error::InvalidPoint),
    }
}

} // verus!
