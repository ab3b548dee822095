use dusk_jubjub::{JubJubAffine, JubJubScalar, GENERATOR_EXTENDED};
use dusk_pki::{Point, PublicKey, PublicSpendKey, Scalar, SecretKey, SecretSpendKey, ViewKey};

fn seed(tag: u8) -> [u8; 64] {
    let mut s = [0u8; 64];
    for (i, b) in s.iter_mut().enumerate() {
        *b = tag.wrapping_mul(151).wrapping_add((i as u8).wrapping_mul(29)) ^ 0x5a;
    }
    s
}

fn spend_key(tag: u8) -> SecretSpendKey {
    SecretSpendKey::random(&seed(tag), &seed(tag.wrapping_add(101)))
}

#[test]
fn ssk_from_bytes() {
    let ssk_a = spend_key(1);
    let bytes = ssk_a.to_bytes();
    let ssk_b = SecretSpendKey::from_slice(&bytes).expect("Serde error");

    assert!(ssk_a == ssk_b);
}

#[test]
fn keys_encoding() {
    let ssk = spend_key(2);
    let vk = ssk.view_key();
    let psk = ssk.public_spend_key();

    assert!(vk == ViewKey::from_hex_str(vk.to_hex().as_str()).unwrap());
    assert!(psk == PublicSpendKey::from_hex_str(psk.to_hex().as_str()).unwrap());
}

#[test]
fn keys_consistency() {
    let r = Scalar::from_bytes_wide(&seed(3));
    let ssk = spend_key(4);
    let psk = ssk.public_spend_key();
    let vk = ssk.view_key();
    let sa = psk.gen_stealth_address(&r);

    assert!(vk.owns(&sa));

    let wrong_ssk = spend_key(5);
    let wrong_vk = wrong_ssk.view_key();

    assert!(ssk != wrong_ssk);
    assert!(vk != wrong_vk);

    assert!(!wrong_vk.owns(&sa));

    let sk_r = ssk.sk_r(&sa);
    let wrong_sk_r = wrong_ssk.sk_r(&sa);

    assert!(sa.address() == &Point::mul_generator(sk_r.as_ref()));
    assert!(sa.address() != &Point::mul_generator(wrong_sk_r.as_ref()));
}

#[test]
fn partial_eq_pk() {
    let sk1 = SecretKey::random(&seed(6));
    let sk2 = SecretKey::random(&seed(7));

    assert!(sk1 != sk2);

    let pk1 = PublicKey::from_secret(&sk1);
    let pk2 = PublicKey::from_secret(&sk2);

    assert!(pk1 == pk1);
    assert!(pk1 != pk2);

    // With all coordinates being different the points are the same ie.
    // equalty holds using this technique.
    let s = (
        Scalar::from_u64(2),
        Scalar::from_u64(7),
        Scalar::from_u64(4),
        Scalar::from_u64(5),
        Scalar::from_u64(567758785),
    );

    let left = Point::mul_generator(&s.0).add(&Point::mul_generator(&s.1));
    let right = Point::mul_generator(&s.2).add(&Point::mul_generator(&s.3));
    let wrong = Point::mul_generator(&s.2).add(&Point::mul_generator(&s.4));

    // The same sums, held by the curve library in extended coordinates:
    // none of the coordinates actually matches.
    let ext_left = GENERATOR_EXTENDED * JubJubScalar::from(2u64)
        + GENERATOR_EXTENDED * JubJubScalar::from(7u64);
    let ext_right = GENERATOR_EXTENDED * JubJubScalar::from(4u64)
        + GENERATOR_EXTENDED * JubJubScalar::from(5u64);
    assert_ne!(ext_left.get_x(), ext_right.get_x());
    assert_ne!(ext_left.get_y(), ext_right.get_y());
    assert_ne!(ext_left.get_z(), ext_right.get_z());

    assert_eq!(JubJubAffine::from(ext_right), JubJubAffine::from(ext_left));

    assert!(PublicKey::from(left) == PublicKey::from(right));
    assert!(PublicKey::from(left) != PublicKey::from(wrong))
}
