use ark_ec_vrfs::h2c::hash_to_curve_tai;
use ark_ec_vrfs::ring::{RingContext, RingSetupError};
use ark_ec_vrfs::suite::BandersnatchBlake2;

fn synthetic_keys(n: usize) -> Vec<Vec<u8>> {
    let suite = BandersnatchBlake2::suite();
    (0..n)
        .map(|i| hash_to_curve_tai(&suite, &(i as u64).to_le_bytes()).unwrap().encoding)
        .collect()
}

#[test]
fn ring_of_domain_size_with_signer_at_three() {
    let ctx = RingContext { domain_size: 1024 };
    let mut ring = synthetic_keys(1024);
    let public = hash_to_curve_tai(&BandersnatchBlake2::suite(), b"test seed").unwrap().encoding;
    ring[3] = public.clone();
    assert_eq!(ctx.check_ring(&ring), Ok(()));
    assert_eq!(ctx.check_signer(&ring, 3, &public), Ok(()));
    assert_eq!(ctx.check_signer(&ring, 4, &public), Err(RingSetupError::SignerNotAtIndex));
    assert_eq!(ctx.check_signer(&ring, 1024, &public), Err(RingSetupError::SignerNotAtIndex));
}

#[test]
fn ring_larger_than_domain_is_refused() {
    let ctx = RingContext { domain_size: 4 };
    let ring = synthetic_keys(5);
    assert_eq!(ctx.check_ring(&ring), Err(RingSetupError::RingTooLarge));
    assert_eq!(ctx.check_signer(&ring, 0, &ring[0]), Err(RingSetupError::RingTooLarge));
    assert_eq!(ctx.check_ring(&ring[..4].to_vec()), Ok(()));
}

#[test]
fn empty_ring_has_no_signer() {
    let ctx = RingContext { domain_size: 4 };
    let ring: Vec<Vec<u8>> = Vec::new();
    assert_eq!(ctx.check_ring(&ring), Ok(()));
    assert_eq!(ctx.check_signer(&ring, 0, &[1, 2, 3]), Err(RingSetupError::SignerNotAtIndex));
}

#[test]
fn signer_key_must_match_in_length_and_bytes() {
    let ctx = RingContext { domain_size: 8 };
    let ring = vec![vec![1u8, 2, 3], vec![4u8, 5]];
    assert_eq!(ctx.check_signer(&ring, 1, &[4, 5]), Ok(()));
    assert_eq!(ctx.check_signer(&ring, 1, &[4, 5, 6]), Err(RingSetupError::SignerNotAtIndex));
    assert_eq!(ctx.check_signer(&ring, 0, &[1, 2, 4]), Err(RingSetupError::SignerNotAtIndex));
}
