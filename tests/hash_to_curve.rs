use ark_ec_vrfs::curve::{AffinePoint, CurveKind};
use ark_ec_vrfs::h2c::hash_to_curve_tai;
use ark_ec_vrfs::suite::{BandersnatchBlake2, HashKind, Suite};
use ark_serialize::CanonicalDeserialize;

fn test_suite() -> Suite {
    Suite {
        id: 0xFF,
        challenge_len: 16,
        curve: CurveKind::Ed25519,
        hasher: HashKind::Sha512,
    }
}

fn ed25519_point(p: &AffinePoint) -> ark_ed25519::EdwardsAffine {
    assert_eq!(p.curve, CurveKind::Ed25519);
    ark_ed25519::EdwardsAffine::deserialize_compressed_unchecked(&p.encoding[..]).unwrap()
}

fn bandersnatch_point(p: &AffinePoint) -> ark_ed_on_bls12_381_bandersnatch::EdwardsAffine {
    assert_eq!(p.curve, CurveKind::Bandersnatch);
    ark_ed_on_bls12_381_bandersnatch::EdwardsAffine::deserialize_compressed_unchecked(&p.encoding[..])
        .unwrap()
}

fn hex(bytes: &[u8]) -> String {
    bytes.iter().map(|b| format!("{:02x}", b)).collect()
}

#[test]
fn hash_to_curve_tai_works() {
    let pt = hash_to_curve_tai(&test_suite(), b"hello world").unwrap();
    let pt = ed25519_point(&pt);
    // Check that pt is in the prime subgroup
    assert!(pt.is_on_curve());
    assert!(pt.is_in_correct_subgroup_assuming_on_curve())
}

#[test]
fn hash_to_curve_bandersnatch_in_subgroup() {
    let suite = BandersnatchBlake2::suite();
    for data in [&b""[..], &b"hello world"[..], &b"foo"[..], &[0u8; 100][..]] {
        let pt = hash_to_curve_tai(&suite, data).unwrap();
        assert_eq!(pt.encoding.len(), 32);
        let pt = bandersnatch_point(&pt);
        assert!(pt.is_on_curve());
        assert!(pt.is_in_correct_subgroup_assuming_on_curve());
    }
}

#[test]
fn hash_to_curve_is_deterministic() {
    let suite = BandersnatchBlake2::suite();
    let a = hash_to_curve_tai(&suite, b"some input").unwrap();
    let b = hash_to_curve_tai(&suite, b"some input").unwrap();
    assert_eq!(a, b);
    let c = hash_to_curve_tai(&test_suite(), b"some input").unwrap();
    let d = hash_to_curve_tai(&test_suite(), b"some input").unwrap();
    assert_eq!(c, d);
}

#[test]
fn hash_to_curve_separates_suite_ids() {
    let s1 = BandersnatchBlake2::suite();
    let mut s2 = s1;
    s2.id = 0x34;
    let a = hash_to_curve_tai(&s1, b"hello world").unwrap();
    let b = hash_to_curve_tai(&s2, b"hello world").unwrap();
    assert_ne!(a.encoding, b.encoding);
    let other = hash_to_curve_tai(&s1, b"hello worle").unwrap();
    assert_ne!(a.encoding, other.encoding);
}

#[test]
fn hash_to_curve_with_blake2b_suite() {
    let mut suite = BandersnatchBlake2::suite();
    suite.hasher = HashKind::Blake2b;
    let a = hash_to_curve_tai(&suite, b"hello world").unwrap();
    let pt = bandersnatch_point(&a);
    assert!(pt.is_in_correct_subgroup_assuming_on_curve());
    let b = hash_to_curve_tai(&BandersnatchBlake2::suite(), b"hello world").unwrap();
    assert_ne!(a.encoding, b.encoding);
}

#[test]
fn decode_cleared_rejects_and_projects() {
    // The all-ones string is not a canonical field element.
    assert!(CurveKind::Bandersnatch.decode_cleared(&[0xFFu8; 32]).is_none());
    assert!(CurveKind::Ed25519.decode_cleared(&[0xFFu8; 32]).is_none());
    assert!(CurveKind::Bandersnatch.decode_cleared(&[]).is_none());
    // A point found by hash-to-curve already lies in the subgroup; clearing
    // again multiplies it by the cofactor, which changes it.
    let suite = BandersnatchBlake2::suite();
    let p = hash_to_curve_tai(&suite, b"hello world").unwrap();
    let q = CurveKind::Bandersnatch.decode_cleared(&p.encoding).unwrap();
    assert_ne!(p.encoding, q.encoding);
    assert!(bandersnatch_point(&q).is_in_correct_subgroup_assuming_on_curve());
}

#[test]
fn modulus_byte_lengths() {
    assert_eq!(CurveKind::Bandersnatch.modulus_byte_len(), 31);
    assert_eq!(CurveKind::Ed25519.modulus_byte_len(), 31);
}

#[test]
fn bandersnatch_suite_descriptor() {
    let s = BandersnatchBlake2::suite();
    assert_eq!(s.id, 0x33);
    assert_eq!(s.challenge_len, 32);
    assert_eq!(s.curve, CurveKind::Bandersnatch);
    assert_eq!(s.hasher, HashKind::Sha512);
}

#[test]
fn suite_hashes() {
    let sha = BandersnatchBlake2::hash(b"abc");
    assert_eq!(
        hex(&sha),
        "ddaf35a193617abacc417349ae20413112e6fa4e89a97ea20a9eeee64b55d39a\
         2192992a274fc1a836ba3c23a3feebbd454d4423643ce80e2a9ac94fa54ca49f"
    );
    assert_eq!(BandersnatchBlake2::suite().hash(b"abc"), sha);
    let mut s = BandersnatchBlake2::suite();
    s.hasher = HashKind::Blake2b;
    assert_eq!(
        hex(&s.hash(b"abc")),
        "ba80a53f981c4d0d6a2797b69f12f6e94c212f14685ac4b74b12bb6fdbffa2d1\
         7d87c5392aab792dc252d5de4533cc9518d38aa8dbf1925ab92386edd4009923"
    );
}
