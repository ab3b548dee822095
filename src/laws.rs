use vstd::prelude::*;

use crate::bytes::{le_value, lemma_le_value_injective};
use crate::hexstr::{
    hex_bytes, hex_digit, hex_digits, hex_form, hex_len, hex_payload, is_hex_str, lower_hex_digit,
    upper_hex_digit,
};
use crate::point::{generator_times, is_log_of, is_point_log, is_subgroup_encoding};
use crate::public_spend_key::PublicSpendKey;
use crate::scalar::scalar_modulus;
use crate::secret_spend_key::SecretSpendKey;
use crate::stealth::{one_time_key, one_time_secret, owns_address, StealthAddress};
use crate::view::ViewKey;
use vstd::std_specs::cmp::PartialEqSpec;
use vstd::std_specs::convert::FromSpec;
use vstd::string::StringSliceAdditionalSpecFns;

verus! {

/// The encoding of a scalar decodes back to it, and two scalars with the
/// same encoding are equal.
pub proof fn lemma_scalar_codec(x: int, ex: Seq<u8>, ey: Seq<u8>)
    requires
        0 <= x < scalar_modulus(),
        ex.len() == 32,
        ey.len() == 32,
        le_value(ex) == x,
    ensures
        le_value(ex) < scalar_modulus(),
        ex == ey <==> le_value(ey) == x,
{
    if le_value(ey) == x {
        lemma_le_value_injective(ex, ey);
    }
}

/// The encoding of a point is accepted by the decoder, which gives back
/// that point; and two points have the same encoding only if they are
/// equal.
pub proof fn lemma_point_codec(k: int, j: int)
    requires
        is_point_log(k),
        is_point_log(j),
    ensures
        is_subgroup_encoding(generator_times(k)),
        forall|d: int| is_log_of(d, generator_times(k)) ==> d == k,
        generator_times(k) == generator_times(j) <==> k == j,
{
}

/// The encoding `a ‖ b` of a secret spend key decodes back to the key, and
/// two keys have the same encoding exactly when they are equal.
pub proof fn lemma_secret_spend_key_codec(
    x: SecretSpendKey,
    y: SecretSpendKey,
    ex: Seq<u8>,
    ey: Seq<u8>,
)
    requires
        0 <= x@.0 < scalar_modulus(),
        0 <= x@.1 < scalar_modulus(),
        x.is_encoded_by(ex),
        y.is_encoded_by(ey),
    ensures
        le_value(ex.subrange(0, 32)) < scalar_modulus(),
        le_value(ex.subrange(32, 64)) < scalar_modulus(),
        ex == ey <==> x@ == y@,
{
    if x@ == y@ {
        lemma_le_value_injective(ex.subrange(0, 32), ey.subrange(0, 32));
        lemma_le_value_injective(ex.subrange(32, 64), ey.subrange(32, 64));
        assert(ex =~= ex.subrange(0, 32) + ex.subrange(32, 64));
        assert(ey =~= ey.subrange(0, 32) + ey.subrange(32, 64));
    }
}

/// The encoding `a ‖ B` of a view key decodes back to the key, and two keys
/// have the same encoding exactly when they are equal.
pub proof fn lemma_view_key_codec(x: ViewKey, y: ViewKey, ex: Seq<u8>, ey: Seq<u8>)
    requires
        0 <= x@.0 < scalar_modulus(),
        is_point_log(x@.1),
        x.is_encoded_by(ex),
        y.is_encoded_by(ey),
    ensures
        le_value(ex.subrange(0, 32)) < scalar_modulus(),
        is_subgroup_encoding(ex.subrange(32, 64)),
        ex == ey <==> x@ == y@,
{
    if x@ == y@ {
        lemma_le_value_injective(ex.subrange(0, 32), ey.subrange(0, 32));
        assert(ex =~= ex.subrange(0, 32) + ex.subrange(32, 64));
        assert(ey =~= ey.subrange(0, 32) + ey.subrange(32, 64));
    }
    if ex == ey {
        assert(ex.subrange(32, 64) == ey.subrange(32, 64));
    }
}

/// The encoding `A ‖ B` of a public spend key is accepted by the decoder,
/// which gives back that key; and two keys have the same encoding exactly
/// when they are equal.
pub proof fn lemma_public_spend_key_codec(x: PublicSpendKey, y: PublicSpendKey)
    requires
        is_point_log(x@.0),
        is_point_log(x@.1),
        is_point_log(y@.0),
        is_point_log(y@.1),
    ensures
        is_subgroup_encoding(x.encoding().subrange(0, 32)),
        is_subgroup_encoding(x.encoding().subrange(32, 64)),
        x.is_encoded_by(x.encoding()),
        y.is_encoded_by(x.encoding()) <==> x@ == y@,
        x.encoding() == y.encoding() <==> x@ == y@,
{
    assert(x.encoding().subrange(0, 32) =~= generator_times(x@.0));
    assert(x.encoding().subrange(32, 64) =~= generator_times(x@.1));
    assert(y.encoding().subrange(0, 32) =~= generator_times(y@.0));
    assert(y.encoding().subrange(32, 64) =~= generator_times(y@.1));
}

/// The encoding `R ‖ pk_r` of a stealth address is accepted by the decoder,
/// which gives back that address; and two addresses have the same encoding
/// exactly when they are equal.
pub proof fn lemma_stealth_address_codec(x: StealthAddress, y: StealthAddress)
    requires
        is_point_log(x@.0),
        is_point_log(x@.1),
        is_point_log(y@.0),
        is_point_log(y@.1),
    ensures
        is_subgroup_encoding(x.encoding().subrange(0, 32)),
        is_subgroup_encoding(x.encoding().subrange(32, 64)),
        x.is_encoded_by(x.encoding()),
        y.is_encoded_by(x.encoding()) <==> x@ == y@,
        x.encoding() == y.encoding() <==> x@ == y@,
{
    assert(x.encoding().subrange(0, 32) =~= generator_times(x@.0));
    assert(x.encoding().subrange(32, 64) =~= generator_times(x@.1));
    assert(y.encoding().subrange(0, 32) =~= generator_times(y@.0));
    assert(y.encoding().subrange(32, 64) =~= generator_times(y@.1));
}

/// The digit that `lower_hex_digit` or `upper_hex_digit` writes for `n`
/// reads back as `n`.
proof fn lemma_hex_digit_round_trip(n: int)
    requires
        0 <= n < 16,
    ensures
        (lower_hex_digit(n) as u8) < 0x78,
        (upper_hex_digit(n) as u8) < 0x78,
        hex_digit(lower_hex_digit(n) as u8) == n,
        hex_digit(upper_hex_digit(n) as u8) == n,
        '\0' <= lower_hex_digit(n) <= '\u{7f}',
        '\0' <= upper_hex_digit(n) <= '\u{7f}',
{
}

/// The hex text of bytes, in either case and with or without `0x`, reads
/// back as those bytes, in the length that two digits to a byte give.
pub proof fn lemma_hex_round_trip(b: Seq<u8>, upper: bool, prefixed: bool, s: &str)
    requires
        s@ == hex_form(b, upper, prefixed),
    ensures
        hex_len(s) == 2 * b.len(),
        is_hex_str(s),
        hex_bytes(s) == b,
{
    let d = hex_digits(b, upper);
    let c = s@;
    let off: int = if prefixed {
        2
    } else {
        0
    };
    assert forall|i: int| 0 <= i < d.len() implies {
        &&& '\0' <= #[trigger] d[i] <= '\u{7f}'
        &&& (d[i] as u8) < 0x78
        &&& hex_digit(d[i] as u8) == if i % 2 == 0 {
            b[i / 2] as int / 16
        } else {
            b[i / 2] as int % 16
        }
    } by {
        let x = b[i / 2] as int;
        assert(0 <= x / 16 < 16 && 0 <= x % 16 < 16) by (nonlinear_arith)
            requires
                0 <= x < 256,
        ;
        if i % 2 == 0 {
            lemma_hex_digit_round_trip(x / 16);
        } else {
            lemma_hex_digit_round_trip(x % 16);
        }
    }
    assert(c.len() == d.len() + off);
    assert forall|i: int| 0 <= i < d.len() implies c[i + off] == d[i] by {}
    assert forall|i: int| 0 <= i < c.len() implies '\0' <= #[trigger] c[i] <= '\u{7f}' by {
        if i >= off {
            assert(c[i] == d[i - off]);
        }
    }
    vstd::utf8::is_ascii_chars_encode_utf8(c);
    let t = s.spec_bytes();
    assert(t.len() == c.len());
    assert forall|i: int| 0 <= i < t.len() implies t[i] == c[i] as u8 by {}
    let p = hex_payload(t);
    if prefixed {
        assert(t[0] == 0x30 && t[1] == 0x78);
        assert(p == t.subrange(2, t.len() as int));
    } else if t.len() >= 2 {
        assert(t[1] != 0x78);
    }
    assert(p.len() == d.len());
    assert forall|j: int| 0 <= j < p.len() implies p[j] == d[j] as u8 by {
        assert(p[j] == t[j + off]);
        assert(c[j + off] == d[j]);
    }
    assert forall|j: int| 0 <= j < p.len() implies hex_digit(#[trigger] p[j]) >= 0 by {
        assert(p[j] == d[j] as u8);
    }
    assert forall|k: int| 0 <= k < b.len() implies hex_bytes(s)[k] == b[k] by {
        let x = b[k] as int;
        assert(p[2 * k] == d[2 * k] as u8);
        assert(p[2 * k + 1] == d[2 * k + 1] as u8);
        assert((2 * k) % 2 == 0 && (2 * k) / 2 == k);
        assert((2 * k + 1) % 2 == 1 && (2 * k + 1) / 2 == k);
        assert(16 * (x / 16) + x % 16 == x) by (nonlinear_arith)
            requires
                0 <= x < 256,
        ;
    }
    assert(hex_bytes(s) =~= b);
}

/// The public spend key and the view key are functions of the secret spend
/// key alone: keys derived from one secret spend key, any number of times,
/// are equal; `From` gives the very keys that `public_spend_key` and
/// `view_key` give; and the public spend key that the view key derives is
/// the secret spend key's own.
pub proof fn lemma_derivation_consistency(
    ssk: SecretSpendKey,
    psk1: PublicSpendKey,
    psk2: PublicSpendKey,
    vk1: ViewKey,
    vk2: ViewKey,
)
    requires
        psk1.well_formed(),
        vk1.well_formed(),
        psk1@ == ssk@,
        psk2@ == ssk@,
        vk1@ == ssk@,
        vk2@ == ssk@,
    ensures
        psk1.eq_spec(&psk2),
        vk1.eq_spec(&vk2),
        <PublicSpendKey as FromSpec<SecretSpendKey>>::from_spec(ssk) == psk1,
        <ViewKey as FromSpec<SecretSpendKey>>::from_spec(ssk) == vk1,
        vk1@ == psk1@,
{
    psk1.lemma_from_secret(ssk);
    vk1.lemma_from_secret(ssk);
}

/// Results depend on keys and points only through what they are, not on how
/// they were computed: equal public spend keys give equal stealth addresses
/// for one `r`, and stealth addresses with equal `R` give one secret spend
/// key equal one-time secrets, whatever their `pk_r`.
pub proof fn lemma_equal_inputs_equal_results(
    psk1: PublicSpendKey,
    psk2: PublicSpendKey,
    r: int,
    ssk: SecretSpendKey,
    sa1: StealthAddress,
    sa2: StealthAddress,
)
    requires
        psk1.eq_spec(&psk2),
        sa1@.0 == sa2@.0,
    ensures
        one_time_key(psk1@.0, psk1@.1, r) == one_time_key(psk2@.0, psk2@.1, r),
        one_time_secret(ssk@.0, ssk@.1, sa1@.0) == one_time_secret(ssk@.0, ssk@.1, sa2@.0),
{
}

/// For every secret spend key `(a, b)` and ephemeral scalar `r`: the view key
/// `(a, b·G)` owns the stealth address that `r` generates for the public
/// spend key `(a·G, b·G)`, and the one-time secret that `(a, b)` recovers
/// from it is the discrete logarithm of its `pk_r`, so that `sk_r·G = pk_r`.
pub proof fn lemma_stealth_address_correct(a: int, b: int, r: int)
    ensures
        owns_address(a, b, r, one_time_key(a, b, r)),
        one_time_secret(a, b, r) == one_time_key(a, b, r),
{
    assert(a * r == r * a) by (nonlinear_arith);
}

} // verus!
