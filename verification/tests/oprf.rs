use curve25519_dalek::ristretto::RistrettoPoint;
use curve25519_dalek::scalar::Scalar;
use hkdf::Hkdf;
use oprf_core::errors::InternalPakeError;
use oprf_core::group::{random_nonzero_scalar, scalar_from_bytes_mod_order};
use oprf_core::hash::HkdfSha512;
use oprf_core::oprf::{
    blinded_prf_round_trip, direct_prf, generate_oprf1, generate_oprf1_with_factor,
    generate_oprf2, generate_oprf3,
};
use rand_core::{OsRng, RngCore};
use sha2::{Digest, Sha256, Sha512};

/// The reference PRF, recomputed directly with the underlying crypto crates:
/// hash the input to the curve, multiply by the key, run the finalize hash.
fn prf(input: &[u8], oprf_key: &[u8]) -> Vec<u8> {
    let (hashed_input, _) = Hkdf::<Sha512>::extract(None, input);
    let mut hasher = Sha512::new();
    hasher.update(&hashed_input[..]);
    let mut bits = [0u8; 64];
    bits.copy_from_slice(&hasher.finalize());
    let point = RistrettoPoint::from_uniform_bytes(&bits);
    let mut key_bytes = [0u8; 32];
    key_bytes.copy_from_slice(oprf_key);
    let scalar = Scalar::from_bytes_mod_order(key_bytes);
    let res = point * scalar;
    let ikm: Vec<u8> = [&res.compress().to_bytes()[..], input].concat();
    let (prk, _) = Hkdf::<Sha256>::extract(None, &ikm);
    prk.to_vec()
}

fn salt_bytes() -> Vec<u8> {
    vec![
        1, 2, 3, 4, 5, 6, 7, 8, 9, 10, 11, 12, 13, 14, 15, 16, 17, 18, 19, 20, 21, 22, 23, 24,
        25, 26, 27, 28, 29, 30, 31, 32,
    ]
}

fn small_scalar(first: u8) -> Vec<u8> {
    let mut bytes = vec![0u8; 32];
    bytes[0] = first;
    bytes
}

#[test]
fn oprf_retrieval() {
    let input = b"hunter2";
    let state = generate_oprf1::<HkdfSha512>(&input[..], None).unwrap();
    let salt = scalar_from_bytes_mod_order(&salt_bytes());
    let beta = generate_oprf2(&state.alpha, &salt).unwrap();
    let res = generate_oprf3(&input[..], &beta, &state.blinding_factor).unwrap();
    let res2 = prf(&input[..], &salt);
    assert_eq!(res, res2);
}

#[test]
fn oprf_inversion_unsalted() {
    let mut rng = OsRng;
    let mut input = vec![0u8; 64];
    rng.fill_bytes(&mut input);
    let state = generate_oprf1::<HkdfSha512>(&input, None).unwrap();
    let res = generate_oprf3(&input, &state.alpha, &state.blinding_factor).unwrap();

    let (hashed_input, _) = Hkdf::<Sha512>::extract(None, &input);
    let mut hasher = Sha512::new();
    Digest::update(&mut hasher, &hashed_input[..]);
    let mut bits = [0u8; 64];
    bits.copy_from_slice(&hasher.finalize());
    let point = RistrettoPoint::from_uniform_bytes(&bits);
    let mut ikm: Vec<u8> = Vec::new();
    ikm.extend_from_slice(&point.compress().to_bytes());
    ikm.extend_from_slice(&input);
    let (prk, _) = Hkdf::<Sha256>::extract(None, &ikm);

    assert_eq!(res, prk.to_vec());
}

#[test]
fn oprf_deterministic_factor_matches_direct_path() {
    let input = b"hunter2";
    let key = scalar_from_bytes_mod_order(&salt_bytes());
    let factor = small_scalar(5);
    let blinded = blinded_prf_round_trip::<HkdfSha512>(&input[..], None, &key, &factor).unwrap();
    let direct = direct_prf::<HkdfSha512>(&input[..], None, &key);
    assert_eq!(blinded, direct);
    assert_eq!(blinded.len(), 32);
}

#[test]
fn oprf_blinding_factor_independence() {
    let input = b"a modest secret";
    let key = scalar_from_bytes_mod_order(&salt_bytes());
    let out5 = blinded_prf_round_trip::<HkdfSha512>(&input[..], None, &key, &small_scalar(5))
        .unwrap();
    let out7 = blinded_prf_round_trip::<HkdfSha512>(&input[..], None, &key, &small_scalar(7))
        .unwrap();
    assert_eq!(out5, out7);

    // the intermediate wire values do differ per factor
    let st5 = generate_oprf1_with_factor::<HkdfSha512>(&input[..], None, &small_scalar(5))
        .unwrap();
    let st7 = generate_oprf1_with_factor::<HkdfSha512>(&input[..], None, &small_scalar(7))
        .unwrap();
    assert_ne!(st5.alpha, st7.alpha);
}

#[test]
fn oprf_determinism() {
    let input = b"same every time";
    let key = scalar_from_bytes_mod_order(&salt_bytes());
    let factor = small_scalar(9);
    let first = blinded_prf_round_trip::<HkdfSha512>(&input[..], None, &key, &factor).unwrap();
    let second = blinded_prf_round_trip::<HkdfSha512>(&input[..], None, &key, &factor).unwrap();
    assert_eq!(first, second);
}

#[test]
fn oprf_pepper_changes_output() {
    let input = b"";
    let key = scalar_from_bytes_mod_order(&salt_bytes());
    let factor = small_scalar(5);
    let unsalted =
        blinded_prf_round_trip::<HkdfSha512>(&input[..], None, &key, &factor).unwrap();
    let peppered =
        blinded_prf_round_trip::<HkdfSha512>(&input[..], Some(b"pepper"), &key, &factor).unwrap();
    assert_eq!(peppered, direct_prf::<HkdfSha512>(&input[..], Some(b"pepper"), &key));
    assert_ne!(unsalted, peppered);
}

#[test]
fn oprf_rejects_invalid_wire_point() {
    let key = scalar_from_bytes_mod_order(&salt_bytes());
    // not a canonical field-element encoding: every bit set
    let junk = vec![0xffu8; 32];
    assert_eq!(
        generate_oprf2(&junk, &key),
        Err(InternalPakeError::InvalidPointError)
    );
    // wrong length
    let short = vec![0u8; 31];
    assert_eq!(
        generate_oprf2(&short, &key),
        Err(InternalPakeError::InvalidPointError)
    );
    // finalize rejects it too
    let factor = small_scalar(5);
    assert_eq!(
        generate_oprf3(b"hunter2", &junk, &factor),
        Err(InternalPakeError::InvalidPointError)
    );
}

#[test]
fn oprf_rejects_zero_blinding_factor() {
    let input = b"hunter2";
    let zero = vec![0u8; 32];
    let state = generate_oprf1::<HkdfSha512>(&input[..], None).unwrap();
    assert_eq!(
        generate_oprf3(&input[..], &state.alpha, &zero),
        Err(InternalPakeError::InvalidScalarError)
    );
    assert!(matches!(
        generate_oprf1_with_factor::<HkdfSha512>(&input[..], None, &zero),
        Err(InternalPakeError::InvalidScalarError)
    ));
}

#[test]
fn oprf_scalar_reduction_is_canonical() {
    // a canonical value is left alone
    let five = small_scalar(5);
    assert_eq!(scalar_from_bytes_mod_order(&five), five);
    // a non-canonical value is reduced exactly as the curve library reduces it
    let raw = salt_bytes();
    let mut arr = [0u8; 32];
    arr.copy_from_slice(&raw);
    let expected = Scalar::from_bytes_mod_order(arr).to_bytes().to_vec();
    let reduced = scalar_from_bytes_mod_order(&raw);
    assert_eq!(reduced, expected);
    assert_ne!(reduced, raw);
}

#[test]
fn oprf_random_scalar_is_nonzero_and_canonical() {
    let s = random_nonzero_scalar().unwrap();
    assert_eq!(s.len(), 32);
    assert_ne!(s, vec![0u8; 32]);
    // canonical encodings of scalars stay below the group order, whose top
    // byte is 0x10
    assert!(s[31] <= 0x10);
}
