use bbsp::bbsp::{BBSPlusKey, BBSPlusSig, SignError, VerifyError};
use bls12_381::{G1Affine, G1Projective, G2Affine, Scalar};
use ff::Field;
use rand_chacha::rand_core::SeedableRng;
use rand_chacha::ChaChaRng;

fn draw(rng: &mut ChaChaRng, n: usize) -> Vec<[u8; 32]> {
    let mut v = Vec::new();
    for _ in 0..n {
        v.push(Scalar::random(&mut *rng).to_bytes());
    }
    v
}

fn scalar(n: u64) -> [u8; 32] {
    Scalar::from(n).to_bytes()
}

fn setup(seed: u8, l: usize) -> (ChaChaRng, BBSPlusKey, Vec<[u8; 32]>, BBSPlusSig) {
    let mut rng = ChaChaRng::from_seed([seed; 32]);
    let msg = draw(&mut rng, l);
    let key = BBSPlusKey::keygen(&mut rng, l);
    let sig = BBSPlusSig::sign(&mut rng, &key, &msg, l).unwrap();
    (rng, key, msg, sig)
}

#[test]
fn test_sign() {
    let seed = [0u8; 32];
    let mut rng = ChaChaRng::from_seed(seed);
    let l = 10;

    let mut msg: Vec<[u8; 32]> = Vec::with_capacity(l);
    for _ in 0..l {
        let tmp = Scalar::random(rng.clone());
        msg.push(tmp.to_bytes());
    }

    let key = BBSPlusKey::keygen(&mut rng, l);
    let sig = BBSPlusSig::sign(&mut rng, &key, &msg, l).unwrap();

    assert_eq!(BBSPlusSig::verify(&key, &msg, l, &sig), Ok(()));
}

#[test]
fn zero_seed_scenario_detects_changed_attribute() {
    let (_, key, mut msg, sig) = setup(0, 10);
    assert_eq!(BBSPlusSig::verify(&key, &msg, 10, &sig), Ok(()));
    let changed = (Scalar::from_bytes(&msg[0]).unwrap() + Scalar::one()).to_bytes();
    msg[0] = changed;
    assert_eq!(BBSPlusSig::verify(&key, &msg, 10, &sig), Err(VerifyError::SignatureInvalid));
}

#[test]
fn round_trip_for_small_capacities() {
    for l in 1..4usize {
        let (_, key, msg, sig) = setup(l as u8, l);
        assert_eq!(key.capacity(), l);
        assert_eq!(BBSPlusSig::verify(&key, &msg, l, &sig), Ok(()));
    }
}

#[test]
fn round_trip_with_no_attributes() {
    let (_, key, msg, sig) = setup(7, 0);
    assert_eq!(key.capacity(), 0);
    assert_eq!(BBSPlusSig::verify(&key, &msg, 0, &sig), Ok(()));
}

#[test]
fn tampered_signature_parts_are_rejected() {
    let (mut rng, key, msg, sig) = setup(3, 4);
    let other = BBSPlusSig::sign(&mut rng, &key, &msg, 4).unwrap();
    assert_ne!(other, sig);

    let mut t = sig;
    t.A = other.A;
    assert_eq!(BBSPlusSig::verify(&key, &msg, 4, &t), Err(VerifyError::SignatureInvalid));

    let mut t = sig;
    t.e = (Scalar::from_bytes(&sig.e).unwrap() + Scalar::one()).to_bytes();
    assert_eq!(BBSPlusSig::verify(&key, &msg, 4, &t), Err(VerifyError::SignatureInvalid));

    let mut t = sig;
    t.s = (Scalar::from_bytes(&sig.s).unwrap() + Scalar::one()).to_bytes();
    assert_eq!(BBSPlusSig::verify(&key, &msg, 4, &t), Err(VerifyError::SignatureInvalid));
}

#[test]
fn each_changed_attribute_is_rejected() {
    let (_, key, msg, sig) = setup(5, 3);
    for i in 0..3 {
        let mut m = msg.clone();
        m[i] = (Scalar::from_bytes(&m[i]).unwrap() + Scalar::one()).to_bytes();
        assert_eq!(BBSPlusSig::verify(&key, &m, 3, &sig), Err(VerifyError::SignatureInvalid));
    }
}

#[test]
fn signature_fails_under_another_key() {
    let (mut rng, _, msg, sig) = setup(9, 3);
    let key2 = BBSPlusKey::keygen(&mut rng, 3);
    assert_eq!(BBSPlusSig::verify(&key2, &msg, 3, &sig), Err(VerifyError::SignatureInvalid));
}

#[test]
fn capacity_mismatch_is_reported() {
    let (mut rng, key, msg, sig) = setup(11, 3);
    let short = msg[..2].to_vec();
    let mut long = msg.clone();
    long.push(scalar(1));
    assert_eq!(BBSPlusSig::sign(&mut rng, &key, &short, 2), Err(SignError::CapacityMismatch));
    assert_eq!(BBSPlusSig::sign(&mut rng, &key, &short, 3), Err(SignError::CapacityMismatch));
    assert_eq!(BBSPlusSig::sign(&mut rng, &key, &long, 4), Err(SignError::CapacityMismatch));
    assert_eq!(BBSPlusSig::verify(&key, &short, 2, &sig), Err(VerifyError::CapacityMismatch));
    assert_eq!(BBSPlusSig::verify(&key, &long, 3, &sig), Err(VerifyError::CapacityMismatch));
    assert_eq!(BBSPlusSig::verify(&key, &msg, 4, &sig), Err(VerifyError::CapacityMismatch));
}

#[test]
fn verification_is_repeatable() {
    let (_, key, msg, sig) = setup(13, 2);
    let first = BBSPlusSig::verify(&key, &msg, 2, &sig);
    let second = BBSPlusSig::verify(&key, &msg, 2, &sig);
    assert_eq!(first, second);
    assert_eq!(first, Ok(()));
    let mut t = sig;
    t.s = sig.e;
    assert_eq!(BBSPlusSig::verify(&key, &msg, 2, &t), BBSPlusSig::verify(&key, &msg, 2, &t));
}

#[test]
fn non_canonical_inputs_are_invalid_encodings() {
    let (mut rng, key, msg, sig) = setup(15, 2);
    let mut bad = msg.clone();
    bad[1] = [0xff; 32];
    assert_eq!(BBSPlusSig::sign(&mut rng, &key, &bad, 2), Err(SignError::InvalidEncoding));
    assert_eq!(BBSPlusSig::verify(&key, &bad, 2, &sig), Err(VerifyError::InvalidEncoding));
    let mut t = sig;
    t.e = [0xff; 32];
    assert_eq!(BBSPlusSig::verify(&key, &msg, 2, &t), Err(VerifyError::InvalidEncoding));
    let mut t = sig;
    t.A = [0u8; 48];
    assert_eq!(BBSPlusSig::verify(&key, &msg, 2, &t), Err(VerifyError::InvalidEncoding));
    assert_eq!(
        BBSPlusSig::sign_with(&key, &msg, 2, [0xff; 32], scalar(1)),
        Err(SignError::InvalidEncoding)
    );
}

#[test]
fn zero_exponent_is_non_invertible() {
    let key = BBSPlusKey::from_scalars(scalar(1), &vec![scalar(2), scalar(3)]).unwrap();
    let minus_one = (-Scalar::one()).to_bytes();
    assert_eq!(
        BBSPlusSig::sign_with(&key, &[scalar(4)], 1, minus_one, scalar(5)),
        Err(SignError::NonInvertibleExponent)
    );
    let sig = BBSPlusSig::sign_with(&key, &[scalar(4)], 1, scalar(6), scalar(5)).unwrap();
    assert_eq!(BBSPlusSig::verify(&key, &[scalar(4)], 1, &sig), Ok(()));
}

#[test]
fn signature_point_matches_direct_computation() {
    let key = BBSPlusKey::from_scalars(scalar(7), &vec![scalar(2), scalar(3), scalar(11)]).unwrap();
    let msg = [scalar(4), scalar(9)];
    let sig = BBSPlusSig::sign_with(&key, &msg, 2, scalar(6), scalar(5)).unwrap();
    assert_eq!(sig.e, scalar(6));
    assert_eq!(sig.s, scalar(5));
    let g = G1Projective::generator();
    let b = g + g * Scalar::from(2u64 * 4) + g * Scalar::from(3u64 * 9) + g * Scalar::from(11u64 * 5);
    let inv = Scalar::from(13u64).invert().unwrap();
    assert_eq!(sig.A, G1Affine::from(b * inv).to_compressed());
}

#[test]
fn keys_from_scalars_hold_the_expected_points() {
    let key = BBSPlusKey::from_scalars(scalar(1), &vec![scalar(1), scalar(2)]).unwrap();
    assert_eq!(key.capacity(), 1);
    assert_eq!(key.public_key(), G2Affine::generator().to_compressed());
    assert_eq!(key.generator(0), G1Affine::generator().to_compressed());
    let two = G1Affine::from(G1Projective::generator() * Scalar::from(2u64)).to_compressed();
    assert_eq!(key.generator(1), two);
}

const G1_GENERATOR: [u8; 48] = [
    0x97, 0xf1, 0xd3, 0xa7, 0x31, 0x97, 0xd7, 0x94, 0x26, 0x95, 0x63, 0x8c,
    0x4f, 0xa9, 0xac, 0x0f, 0xc3, 0x68, 0x8c, 0x4f, 0x97, 0x74, 0xb9, 0x05,
    0xa1, 0x4e, 0x3a, 0x3f, 0x17, 0x1b, 0xac, 0x58, 0x6c, 0x55, 0xe8, 0x3f,
    0xf9, 0x7a, 0x1a, 0xef, 0xfb, 0x3a, 0xf0, 0x0a, 0xdb, 0x22, 0xc6, 0xbb,
];

const G2_GENERATOR: [u8; 96] = [
    0x93, 0xe0, 0x2b, 0x60, 0x52, 0x71, 0x9f, 0x60, 0x7d, 0xac, 0xd3, 0xa0,
    0x88, 0x27, 0x4f, 0x65, 0x59, 0x6b, 0xd0, 0xd0, 0x99, 0x20, 0xb6, 0x1a,
    0xb5, 0xda, 0x61, 0xbb, 0xdc, 0x7f, 0x50, 0x49, 0x33, 0x4c, 0xf1, 0x12,
    0x13, 0x94, 0x5d, 0x57, 0xe5, 0xac, 0x7d, 0x05, 0x5d, 0x04, 0x2b, 0x7e,
    0x02, 0x4a, 0xa2, 0xb2, 0xf0, 0x8f, 0x0a, 0x91, 0x26, 0x08, 0x05, 0x27,
    0x2d, 0xc5, 0x10, 0x51, 0xc6, 0xe4, 0x7a, 0xd4, 0xfa, 0x40, 0x3b, 0x02,
    0xb4, 0x51, 0x0b, 0x64, 0x7a, 0xe3, 0xd1, 0x77, 0x0b, 0xac, 0x03, 0x26,
    0xa8, 0x05, 0xbb, 0xef, 0xd4, 0x80, 0x56, 0xc8, 0xc1, 0x21, 0xbd, 0xb8,
];

#[test]
fn generator_encodings_are_the_standard_ones() {
    let key = BBSPlusKey::from_scalars(scalar(1), &vec![scalar(1)]).unwrap();
    assert_eq!(key.generator(0), G1_GENERATOR);
    assert_eq!(key.public_key(), G2_GENERATOR);
    assert_eq!(G1Affine::generator().to_compressed(), G1_GENERATOR);
    assert_eq!(G2Affine::generator().to_compressed(), G2_GENERATOR);
}

#[test]
fn from_scalars_rejects_bad_input() {
    assert!(BBSPlusKey::from_scalars(scalar(1), &vec![]).is_none());
    assert!(BBSPlusKey::from_scalars([0xff; 32], &vec![scalar(1)]).is_none());
    assert!(BBSPlusKey::from_scalars(scalar(1), &vec![scalar(1), [0xff; 32]]).is_none());
}

#[test]
fn signing_is_randomized() {
    let (mut rng, key, msg, sig) = setup(17, 2);
    let again = BBSPlusSig::sign(&mut rng, &key, &msg, 2).unwrap();
    assert_ne!(sig.A, again.A);
    assert_ne!(sig.e, again.e);
    assert_eq!(BBSPlusSig::verify(&key, &msg, 2, &again), Ok(()));
}
