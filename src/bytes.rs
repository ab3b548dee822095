use vstd::prelude::*;

verus! {

/// The number that `b` denotes when read as a little-endian integer.
pub open spec fn le_value(b: Seq<u8>) -> int
    decreases b.len(),
{
    if b.len() == 0 {
        0
    } else {
        b[0] as int + 256 * le_value(b.drop_first())
    }
}

/// The number that a byte string denotes is not negative.
pub proof fn lemma_le_value_nonneg(b: Seq<u8>)
    ensures
        le_value(b) >= 0,
    decreases b.len(),
{
    if b.len() > 0 {
        lemma_le_value_nonneg(b.drop_first());
    }
}

/// Two byte strings of one length that denote the same number are equal.
pub proof fn lemma_le_value_injective(x: Seq<u8>, y: Seq<u8>)
    requires
        x.len() == y.len(),
        le_value(x) == le_value(y),
    ensures
        x == y,
    decreases x.len(),
{
    if x.len() > 0 {
        let (vx, vy) = (le_value(x.drop_first()), le_value(y.drop_first()));
        lemma_le_value_nonneg(x.drop_first());
        lemma_le_value_nonneg(y.drop_first());
        assert(x[0] as int == y[0] as int && vx == vy) by (nonlinear_arith)
            requires
                x[0] as int + 256 * vx == y[0] as int + 256 * vy,
                0 <= x[0] < 256,
                0 <= y[0] < 256,
                vx >= 0,
                vy >= 0,
        ;
        lemma_le_value_injective(x.drop_first(), y.drop_first());
        assert(x =~= seq![x[0]] + x.drop_first());
        assert(y =~= seq![y[0]] + y.drop_first());
    }
}

/// Copies a slice of 32 bytes into an array.
pub fn array32_from_slice(s: &[u8]) -> (r: [u8; 32])
    requires
        s@.len() == 32,
    ensures
        r@ == s@,
{
    let mut r = [0u8; 32];
    let mut i: usize = 0;
    while i < 32
        invariant
            s@.len() == 32,
            0 <= i <= 32,
            forall|j: int| 0 <= j < i ==> r@[j] == s@[j],
        decreases 32 - i,
    {
        r[i] = s[i];
        i = i + 1;
    }
    assert(r@ =~= s@);
    r
}

/// Copies a slice of 64 bytes into an array.
pub fn array64_from_slice(s: &[u8]) -> (r: [u8; 64])
    requires
        s@.len() == 64,
    ensures
        r@ == s@,
{
    let mut r = [0u8; 64];
    let mut i: usize = 0;
    while i < 64
        invariant
            s@.len() == 64,
            0 <= i <= 64,
            forall|j: int| 0 <= j < i ==> r@[j] == s@[j],
        decreases 64 - i,
    {
        r[i] = s[i];
        i = i + 1;
    }
    assert(r@ =~= s@);
    r
}

/// Joins two arrays of 32 bytes into one of 64.
pub fn concat32(x: &[u8; 32], y: &[u8; 32]) -> (r: [u8; 64])
    ensures
        r@ == x@ + y@,
{
    let mut r = [0u8; 64];
    let mut i: usize = 0;
    while i < 32
        invariant
            0 <= i <= 32,
            forall|j: int| 0 <= j < i ==> r@[j] == x@[j],
            forall|j: int| 0 <= j < i ==> r@[j + 32] == y@[j],
        decreases 32 - i,
    {
        r[i] = x[i];
        r[i + 32] = y[i];
        i = i + 1;
    }
    assert(r@ =~= x@ + y@);
    r
}

/// Splits an array of 64 bytes into its two halves.
pub fn split64(b: &[u8; 64]) -> (r: ([u8; 32], [u8; 32]))
    ensures
        r.0@ == b@.subrange(0, 32),
        r.1@ == b@.subrange(32, 64),
{
    let mut x = [0u8; 32];
    let mut y = [0u8; 32];
    let mut i: usize = 0;
    while i < 32
        invariant
            0 <= i <= 32,
            forall|j: int| 0 <= j < i ==> x@[j] == b@[j],
            forall|j: int| 0 <= j < i ==> y@[j] == b@[j + 32],
        decreases 32 - i,
    {
        x[i] = b[i];
        y[i] = b[i + 32];
        i = i + 1;
    }
    assert(x@ =~= b@.subrange(0, 32));
    assert(y@ =~= b@.subrange(32, 64));
    (x, y)
}

} // verus!

verus! {

/// Relies on subtle's `ConstantTimeEq` for byte slices: equal lengths and
/// equal bytes give `true`, compared in time independent of the contents.
#[verifier::external_body]
pub(crate) fn ct_bytes_eq(x: &[u8], y: &[u8]) -> (r: bool)
    ensures
        r == (x@ == y@),
{
    bool::from(subtle::ConstantTimeEq::ct_eq(x, y))
}

} // verus!
