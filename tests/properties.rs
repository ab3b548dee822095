use dusk_bytes::Serializable;
use dusk_jubjub::{JubJubAffine, GENERATOR};
use dusk_pki::{
    decode, hash, Error, Point, PublicKey, PublicSpendKey, Scalar, SecretKey, SecretSpendKey,
    StealthAddress, ViewKey,
};

const MODULUS: [u8; 32] = [
    183, 44, 247, 214, 94, 14, 151, 208, 130, 16, 200, 204, 147, 32, 104, 166, 0, 59, 52, 1, 1,
    59, 103, 6, 169, 175, 51, 101, 234, 180, 125, 14,
];

const MODULUS_MINUS_ONE: [u8; 32] = [
    182, 44, 247, 214, 94, 14, 151, 208, 130, 16, 200, 204, 147, 32, 104, 166, 0, 59, 52, 1, 1,
    59, 103, 6, 169, 175, 51, 101, 234, 180, 125, 14,
];

// The point (0, -1): on the curve, of order two, so outside the prime-order
// subgroup.
const ORDER_TWO_POINT: [u8; 32] = [
    0, 0, 0, 0, 255, 255, 255, 255, 254, 91, 254, 255, 2, 164, 189, 83, 5, 216, 161, 9, 8, 216,
    57, 51, 72, 125, 157, 41, 83, 167, 237, 115,
];

fn seed(tag: u8) -> [u8; 64] {
    let mut s = [0u8; 64];
    for (i, b) in s.iter_mut().enumerate() {
        *b = tag.wrapping_mul(37).wrapping_add((i as u8).wrapping_mul(113)) ^ 0xa5;
    }
    s
}

fn spend_key(tag: u8) -> SecretSpendKey {
    SecretSpendKey::random(&seed(tag), &seed(tag.wrapping_add(50)))
}

fn scalar(n: u64) -> Scalar {
    Scalar::from_u64(n)
}

#[test]
fn round_trip_of_every_type() {
    let ssk = spend_key(1);
    let psk = ssk.public_spend_key();
    let vk = ssk.view_key();
    let sa = psk.gen_stealth_address(&Scalar::from_bytes_wide(&seed(9)));
    let sk = SecretKey::random(&seed(10));
    let pk = PublicKey::from_secret(&sk);

    assert!(SecretSpendKey::from_bytes(&ssk.to_bytes()).unwrap() == ssk);
    assert!(PublicSpendKey::from_bytes(&psk.to_bytes()).unwrap() == psk);
    assert!(ViewKey::from_bytes(&vk.to_bytes()).unwrap() == vk);
    assert!(StealthAddress::from_bytes(&sa.to_bytes()).unwrap() == sa);
    assert!(SecretKey::from_bytes(&sk.to_bytes()).unwrap() == sk);
    assert!(PublicKey::from_bytes(&pk.to_bytes()).unwrap() == pk);
    assert!(StealthAddress::from_slice(&sa.to_bytes()).unwrap() == sa);
    assert!(PublicKey::from_slice(&pk.to_bytes()).unwrap() == pk);
    assert!(decode::<Point>(&pk.to_bytes()).unwrap() == *pk.as_ref());
    assert!(decode::<Scalar>(&sk.to_bytes()).unwrap() == *sk.as_ref());
}

#[test]
fn distinct_keys_have_distinct_encodings() {
    let x = spend_key(2);
    let y = spend_key(3);
    assert!(x != y);
    assert_ne!(x.to_bytes(), y.to_bytes());
    assert_ne!(x.view_key().to_bytes(), y.view_key().to_bytes());
    assert_ne!(x.public_spend_key().to_bytes(), y.public_spend_key().to_bytes());
}

#[test]
fn derivations_are_consistent() {
    let ssk = spend_key(4);
    assert!(ssk.public_spend_key() == ssk.public_spend_key());
    assert!(ssk.view_key() == ssk.view_key());
    assert!(ssk.view_key().public_spend_key() == ssk.public_spend_key());
    assert!(*ssk.view_key().a() == *ssk.a());
    assert!(*ssk.view_key().B() == Point::mul_generator(ssk.b()));
    assert!(*ssk.public_spend_key().A() == Point::mul_generator(ssk.a()));
    assert!(PublicSpendKey::from(ssk) == ssk.public_spend_key());
    assert!(ViewKey::from(ssk) == ssk.view_key());
    assert!(ViewKey::from(spend_key(5)) != ssk.view_key());
}

#[test]
fn stealth_address_is_owned_and_spendable() {
    for tag in 0..6u8 {
        let ssk = spend_key(tag);
        let r = Scalar::from_bytes_wide(&seed(tag.wrapping_add(200)));
        let sa = ssk.public_spend_key().gen_stealth_address(&r);
        assert!(ssk.view_key().owns(&sa));
        assert!(*sa.R() == Point::mul_generator(&r));
        let sk_r = ssk.sk_r(&sa);
        assert!(PublicKey::from_secret(&sk_r) == *sa.pk_r());
        assert!(Point::mul_generator(sk_r.as_ref()) == *sa.address());
    }
}

#[test]
fn other_keys_do_not_own() {
    let ssk = spend_key(11);
    let sa = ssk.public_spend_key().gen_stealth_address(&scalar(12345));
    for tag in 12..18u8 {
        let other = spend_key(tag);
        assert!(!other.view_key().owns(&sa));
        assert!(PublicKey::from_secret(&other.sk_r(&sa)) != *sa.pk_r());
    }
    // Same `b`, other `a`; same `a`, other `b`.
    let a2 = SecretSpendKey::new(*spend_key(20).a(), *ssk.b());
    let b2 = SecretSpendKey::new(*ssk.a(), *spend_key(21).b());
    assert!(!a2.view_key().owns(&sa));
    assert!(!b2.view_key().owns(&sa));
}

#[test]
fn fresh_ephemeral_scalars_give_unlinkable_addresses() {
    let psk = spend_key(30).public_spend_key();
    let sa1 = psk.gen_stealth_address(&scalar(1));
    let sa2 = psk.gen_stealth_address(&scalar(2));
    assert!(sa1 != sa2);
    assert!(*sa1.pk_r() != *sa2.pk_r());
    assert!(psk.gen_stealth_address(&scalar(1)) == sa1);
}

#[test]
fn equality_ignores_how_a_point_was_computed() {
    let left = Point::mul_generator(&scalar(2)).add(&Point::mul_generator(&scalar(7)));
    let right = Point::mul_generator(&scalar(4)).add(&Point::mul_generator(&scalar(5)));
    let nine = Point::mul_generator(&scalar(9));
    let wrong = Point::mul_generator(&scalar(4)).add(&Point::mul_generator(&scalar(567758785)));
    assert!(left == right);
    assert!(left == nine);
    assert!(left != wrong);
    assert_eq!(left.to_bytes(), right.to_bytes());
    assert!(hash(&left) == hash(&right));
    assert!(hash(&left) != hash(&wrong));
    let g3 = Point::mul_generator(&scalar(3));
    assert!(g3.mul(&scalar(3)) == nine);
    let psk1 = PublicSpendKey::new(left, wrong);
    let psk2 = PublicSpendKey::new(right, wrong);
    assert!(psk1 == psk2);
    assert!(PublicSpendKey::new(wrong, left) != psk1);
}

#[test]
fn decoders_reject_wrong_lengths() {
    for n in [31usize, 33] {
        let v = vec![0u8; n];
        assert_eq!(
            SecretKey::from_slice(&v).unwrap_err(),
            Error::BadLength { found: n, expected: 32 }
        );
        assert_eq!(
            PublicKey::from_slice(&v).err(),
            Some(Error::BadLength { found: n, expected: 32 })
        );
        assert_eq!(
            decode::<Scalar>(&v).unwrap_err(),
            Error::BadLength { found: n, expected: 32 }
        );
        assert_eq!(
            decode::<Point>(&v).err(),
            Some(Error::BadLength { found: n, expected: 32 })
        );
    }
    for n in [63usize, 65] {
        let v = vec![0u8; n];
        let bad = Some(Error::BadLength { found: n, expected: 64 });
        assert_eq!(SecretSpendKey::from_slice(&v).err(), bad);
        assert_eq!(PublicSpendKey::from_slice(&v).err(), bad);
        assert_eq!(ViewKey::from_slice(&v).err(), bad);
        assert_eq!(StealthAddress::from_slice(&v).err(), bad);
    }
}

#[test]
fn decoders_reject_invalid_values() {
    let ff = [0xffu8; 32];
    assert_eq!(SecretKey::from_bytes(&ff).unwrap_err(), Error::InvalidParameters);
    assert_eq!(PublicKey::from_bytes(&ff).err(), Some(Error::InvalidPoint));
    assert_eq!(decode::<Scalar>(&ff).unwrap_err(), Error::InvalidParameters);
    assert_eq!(decode::<Point>(&ff).err(), Some(Error::InvalidParameters));
    let ff64 = [0xffu8; 64];
    assert_eq!(SecretSpendKey::from_bytes(&ff64).unwrap_err(), Error::InvalidParameters);
    assert_eq!(PublicSpendKey::from_bytes(&ff64).err(), Some(Error::InvalidPoint));
    assert_eq!(ViewKey::from_bytes(&ff64).err(), Some(Error::InvalidParameters));
    assert_eq!(StealthAddress::from_bytes(&ff64).err(), Some(Error::InvalidPoint));

    // A canonical `a` with an invalid `B`.
    let mut vk = [0xffu8; 64];
    vk[..32].copy_from_slice(&[0u8; 32]);
    assert_eq!(ViewKey::from_bytes(&vk).err(), Some(Error::InvalidPoint));
}

#[test]
fn points_outside_the_subgroup_are_rejected() {
    // The curve library accepts the point, the subgroup check refuses it.
    assert!(JubJubAffine::from_bytes(&ORDER_TWO_POINT).is_ok());
    assert!(Point::from_bytes(&ORDER_TWO_POINT).is_none());
    assert_eq!(PublicKey::from_bytes(&ORDER_TWO_POINT).err(), Some(Error::InvalidPoint));
    let mut psk = [0u8; 64];
    psk[..32].copy_from_slice(&Point::mul_generator(&scalar(5)).to_bytes());
    psk[32..].copy_from_slice(&ORDER_TWO_POINT);
    assert_eq!(PublicSpendKey::from_bytes(&psk).err(), Some(Error::InvalidPoint));
}

#[test]
fn identity_decodes_as_zero_times_generator() {
    let mut identity = [0u8; 32];
    identity[0] = 1;
    let p = Point::from_bytes(&identity).unwrap();
    assert!(p == Point::mul_generator(&scalar(0)));
}

#[test]
fn generator_encoding_matches_the_curve_library() {
    assert_eq!(Point::mul_generator(&scalar(1)).to_bytes(), GENERATOR.to_bytes());
    assert_ne!(Point::mul_generator(&scalar(2)).to_bytes(), GENERATOR.to_bytes());
}

#[test]
fn scalar_arithmetic_is_modular() {
    assert!(scalar(2).add(&scalar(3)) == scalar(5));
    let mut b = [0u8; 32];
    b[0] = 2;
    b[1] = 1;
    assert_eq!(scalar(258).to_bytes(), b);
    let top = Scalar::from_bytes(&MODULUS_MINUS_ONE).unwrap();
    assert!(top.add(&scalar(2)) == scalar(1));
    assert!(Scalar::from_bytes(&MODULUS).is_none());
    let mut wide = [0u8; 64];
    wide[..32].copy_from_slice(&MODULUS);
    assert!(Scalar::from_bytes_wide(&wide) == scalar(0));
    wide[0] = wide[0].wrapping_add(7);
    assert!(Scalar::from_bytes_wide(&wide) == scalar(7));
    let mut one = [0u8; 64];
    one[32] = 1;
    // 2^256 mod the modulus is neither zero nor one.
    assert!(Scalar::from_bytes_wide(&one) != scalar(0));
    assert!(Scalar::from_bytes_wide(&one) != scalar(1));
}

#[test]
fn secret_key_from_random_bytes() {
    assert!(SecretKey::random(&[0u8; 64]) == SecretKey::new(scalar(0)));
    let mut s = [0u8; 64];
    s[0] = 42;
    assert!(SecretKey::random(&s) == SecretKey::from(scalar(42)));
    assert!(*PublicKey::from_raw_unchecked(Point::mul_generator(&scalar(42))).as_ref()
        == *PublicKey::from_secret(&SecretKey::random(&s)).as_ref());
}

#[test]
fn hash_is_a_function_of_the_point() {
    let g = Point::mul_generator(&scalar(1));
    let g2 = Point::mul_generator(&scalar(2));
    assert!(hash(&g) == hash(&g));
    assert!(hash(&g) != hash(&g2));
    assert!(hash(&g) != scalar(1));
    assert!(hash(&g2) != scalar(2));
}

#[test]
fn sk_r_matches_its_formula() {
    let ssk = SecretSpendKey::new(scalar(3), scalar(11));
    let sa = ssk.public_spend_key().gen_stealth_address(&scalar(5));
    let expected = hash(&Point::mul_generator(&scalar(15))).add(&scalar(11));
    assert!(*ssk.sk_r(&sa).as_ref() == expected);
    assert!(*sa.pk_r().as_ref() == Point::mul_generator(&expected));
}

#[test]
fn hex_text_of_keys() {
    let ssk = SecretSpendKey::new(scalar(1), scalar(2));
    let text = format!("01{}02{}", "00".repeat(31), "00".repeat(31));
    assert_eq!(ssk.to_hex(), text);
    assert!(SecretSpendKey::from_hex_str(&text).unwrap() == ssk);
    assert!(SecretSpendKey::from_hex_str(&format!("0x{}", text)).unwrap() == ssk);

    let psk = spend_key(40).public_spend_key();
    let upper = psk.to_hex().to_uppercase();
    assert!(PublicSpendKey::from_hex_str(&upper).unwrap() == psk);
    assert!(PublicSpendKey::from_hex_str(&format!("0x{}", psk.to_hex())).unwrap() == psk);

    let sa = psk.gen_stealth_address(&scalar(77));
    assert!(StealthAddress::from_hex_str(&sa.to_hex()).unwrap() == sa);
    let vk = spend_key(41).view_key();
    assert!(ViewKey::from_hex_str(&vk.to_hex()).unwrap() == vk);
}

#[test]
fn hex_text_errors() {
    let short = "ab".repeat(63) + "a";
    assert_eq!(
        PublicSpendKey::from_hex_str(&short).err(),
        Some(Error::BadLength { found: 127, expected: 128 })
    );
    assert_eq!(
        SecretSpendKey::from_hex_str(&format!("0x{}", "00".repeat(65))).unwrap_err(),
        Error::BadLength { found: 132, expected: 128 }
    );
    assert_eq!(
        StealthAddress::from_hex_str("0x00").err(),
        Some(Error::BadLength { found: 4, expected: 128 })
    );
    let bad_char = format!("zz{}", "00".repeat(63));
    assert_eq!(StealthAddress::from_hex_str(&bad_char).err(), Some(Error::InvalidPoint));
    assert_eq!(SecretSpendKey::from_hex_str(&bad_char).unwrap_err(), Error::InvalidPoint);
    assert_eq!(
        SecretSpendKey::from_hex_str(&"ff".repeat(64)).unwrap_err(),
        Error::InvalidParameters
    );
    assert_eq!(ViewKey::from_hex_str(&"ff".repeat(64)).err(), Some(Error::InvalidParameters));
}

#[test]
fn hex_text_of_single_keys() {
    let sk = SecretKey::new(scalar(0xab));
    let text = format!("ab{}", "00".repeat(31));
    assert_eq!(sk.to_hex(), text);
    assert!(SecretKey::from_hex_str(&format!("0X{}", text)).is_err());
    assert!(SecretKey::from_hex_str(&format!("0x{}", text.to_uppercase())).unwrap() == sk);
    let pk = PublicKey::from_secret(&sk);
    assert!(PublicKey::from_hex_str(&pk.to_hex()).unwrap() == pk);
    assert_eq!(
        PublicKey::from_hex_str(&"ff".repeat(32)).err(),
        Some(Error::InvalidPoint)
    );
    assert_eq!(
        SecretKey::from_hex_str(&"ff".repeat(32)).unwrap_err(),
        Error::InvalidParameters
    );
    assert_eq!(
        SecretKey::from_hex_str("0x12").unwrap_err(),
        Error::BadLength { found: 4, expected: 64 }
    );
}

#[test]
fn hex_text_in_every_form() {
    let sk = SecretKey::new(scalar(0xab));
    let digits = format!("ab{}", "00".repeat(31));
    assert_eq!(sk.to_hex_with(false, false), digits);
    assert_eq!(sk.to_hex_with(true, false), digits.to_uppercase());
    assert_eq!(sk.to_hex_with(false, true), format!("0x{}", digits));
    assert_eq!(sk.to_hex_with(true, true), format!("0x{}", digits.to_uppercase()));

    let ssk = spend_key(60);
    let psk = ssk.public_spend_key();
    let vk = ssk.view_key();
    let sa = psk.gen_stealth_address(&scalar(61));
    for upper in [false, true] {
        for prefixed in [false, true] {
            let t = ssk.to_hex_with(upper, prefixed);
            assert_eq!(t.len(), if prefixed { 130 } else { 128 });
            assert!(SecretSpendKey::from_hex_str(&t).unwrap() == ssk);
            assert!(PublicSpendKey::from_hex_str(&psk.to_hex_with(upper, prefixed)).unwrap() == psk);
            assert!(ViewKey::from_hex_str(&vk.to_hex_with(upper, prefixed)).unwrap() == vk);
            assert!(StealthAddress::from_hex_str(&sa.to_hex_with(upper, prefixed)).unwrap() == sa);
            let pk = PublicKey::from_secret(&sk);
            assert!(PublicKey::from_hex_str(&pk.to_hex_with(upper, prefixed)).unwrap() == pk);
        }
    }
}

#[test]
fn equal_keys_give_equal_results() {
    let a = Point::mul_generator(&scalar(2)).add(&Point::mul_generator(&scalar(7)));
    let b = Point::mul_generator(&scalar(9));
    let psk1 = PublicSpendKey::new(a, b);
    let psk2 = PublicSpendKey::new(b, a);
    assert!(psk1 == psk2);
    let sa1 = psk1.gen_stealth_address(&scalar(5));
    let sa2 = psk2.gen_stealth_address(&scalar(5));
    assert!(sa1 == sa2);
    let ssk = spend_key(70);
    let other = ssk.public_spend_key().gen_stealth_address(&scalar(5));
    assert!(*other.R() == *sa1.R());
    assert!(ssk.sk_r(&other) == ssk.sk_r(&sa1));
}
