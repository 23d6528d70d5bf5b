//! Threshold encryption: ciphertexts, decryption shares, combining,
//! recovery and refresh.

use std::collections::HashMap;

use ark_ec::AffineRepr;
use ark_ec::CurveGroup;
use ark_serialize::CanonicalDeserialize;
use ark_serialize::CanonicalSerialize;
use ark_std::UniformRand;
use rand::rngs::StdRng;
use rand::SeedableRng;

use ferveo::ciphertext::check_ciphertext_validity;
use ferveo::ciphertext::checked_decrypt;
use ferveo::ciphertext::checked_decrypt_with_shared_secret;
use ferveo::ciphertext::encrypt;
use ferveo::ciphertext::Ciphertext;
use ferveo::combine::prepare_combine_fast;
use ferveo::combine::prepare_combine_simple;
use ferveo::combine::checked_share_combine_fast;
use ferveo::combine::share_combine_simple;
use ferveo::combine::share_combine_simple_precomputed;
use ferveo::context::PrivateDecryptionContextSimple;
use ferveo::context::PublicDecryptionContextSimple;
use ferveo::curve::fr_from_bytes;
use ferveo::curve::fr_zero;
use ferveo::curve::g1_from_bytes;
use ferveo::curve::gt_from_bytes;
use ferveo::curve::Fr;
use ferveo::curve::Gt;
use ferveo::curve::G1;
use ferveo::decryption::verify_decryption_shares_simple;
use ferveo::decryption::DecryptionShareFast;
use ferveo::decryption::DecryptionShareSimple;
use ferveo::refresh::make_random_polynomial_at;
use ferveo::refresh::prepare_share_updates_for_recovery;
use ferveo::refresh::recover_share_from_updated_private_shares;
use ferveo::refresh::refresh_private_key_share;
use ferveo::refresh::update_share_for_recovery;
use ferveo::setup::setup_fast;
use ferveo::setup::setup_simple;

fn test_rng() -> StdRng {
    StdRng::seed_from_u64(0)
}

fn ark_fr_to_fr(x: ark_bls12_381::Fr) -> Fr {
    let mut bytes: Vec<u8> = Vec::new();
    x.serialize_compressed(&mut bytes).unwrap();
    fr_from_bytes(&bytes).unwrap()
}

fn scale_g1_by_random(p: &G1, rng: &mut StdRng) -> G1 {
    let bytes = p.to_bytes();
    let point = ark_bls12_381::G1Affine::deserialize_compressed(&bytes[..]).unwrap();
    let factor = ark_ff::BigInteger256::rand(rng);
    let scaled = point.mul_bigint(factor).into_affine();
    let mut out: Vec<u8> = Vec::new();
    scaled.serialize_compressed(&mut out).unwrap();
    g1_from_bytes(&out).unwrap()
}

fn scale_gt_by_random(e: &Gt, rng: &mut StdRng) -> Gt {
    let bytes = e.to_bytes();
    let val = ark_bls12_381::Fq12::deserialize_compressed(&bytes[..]).unwrap();
    let factor = ark_bls12_381::Fq12::rand(rng);
    let mut out: Vec<u8> = Vec::new();
    (val * factor).serialize_compressed(&mut out).unwrap();
    gt_from_bytes(&out).unwrap()
}

#[test]
fn ciphertext_serialization() {
    let rng = &mut test_rng();
    let shares_num = 16;
    let threshold = shares_num * 2 / 3;
    let msg: &[u8] = "abc".as_bytes();
    let aad: &[u8] = "my-aad".as_bytes();

    let (pubkey, _, _) = setup_fast(threshold, shares_num, rng);

    let ciphertext = encrypt(msg, aad, &pubkey, rng);

    let serialized = ciphertext.to_bytes();
    let deserialized: Ciphertext = Ciphertext::from_bytes(&serialized).unwrap();

    assert_eq!(serialized, deserialized.to_bytes())
}

#[test]
fn symmetric_encryption() {
    let rng = &mut test_rng();
    let shares_num = 16;
    let threshold = shares_num * 2 / 3;
    let msg: &[u8] = "abc".as_bytes();
    let aad: &[u8] = "my-aad".as_bytes();

    let (pubkey, privkey, contexts) = setup_fast(threshold, shares_num, rng);
    let g_inv = &contexts[0].setup_params.g_inv;

    let ciphertext = encrypt(msg, aad, &pubkey, rng);

    let plaintext = checked_decrypt(&ciphertext, aad, g_inv, &privkey).unwrap();

    assert_eq!(msg, plaintext)
}

fn test_ciphertext_validation_fails(
    msg: &[u8],
    aad: &[u8],
    ciphertext: &Ciphertext,
    shared_secret: &Gt,
    g_inv: &G1,
) {
    // So far, the ciphertext is valid.
    let plaintext =
        checked_decrypt_with_shared_secret(ciphertext, aad, g_inv, shared_secret).unwrap();
    assert_eq!(plaintext, msg);

    // Malformed the ciphertext.
    let mut ciphertext = ciphertext.clone();
    ciphertext.ciphertext[0] += 1;
    assert!(
        checked_decrypt_with_shared_secret(&ciphertext, aad, g_inv, shared_secret).is_err()
    );

    // Malformed the AAD.
    let aad = "bad aad".as_bytes();
    assert!(
        checked_decrypt_with_shared_secret(&ciphertext, aad, g_inv, shared_secret).is_err()
    );
}

#[test]
fn ciphertext_validity_check() {
    let rng = &mut test_rng();
    let shares_num = 16;
    let threshold = shares_num * 2 / 3;
    let msg: &[u8] = "abc".as_bytes();
    let aad: &[u8] = "my-aad".as_bytes();

    let (pubkey, _, contexts) = setup_fast(threshold, shares_num, rng);
    let g_inv = &contexts[0].setup_params.g_inv;
    let mut ciphertext = encrypt(msg, aad, &pubkey, rng);

    // So far, the ciphertext is valid.
    assert!(check_ciphertext_validity(&ciphertext, aad, g_inv).is_ok());

    // Malformed the ciphertext.
    ciphertext.ciphertext[0] += 1;
    assert!(check_ciphertext_validity(&ciphertext, aad, g_inv).is_err());

    // Malformed the AAD.
    let aad = "bad aad".as_bytes();
    assert!(check_ciphertext_validity(&ciphertext, aad, g_inv).is_err());
}

#[test]
fn fast_decryption_share_validation() {
    let rng = &mut test_rng();
    let shares_num = 16;
    let threshold = shares_num * 2 / 3;
    let msg: &[u8] = "abc".as_bytes();
    let aad: &[u8] = "my-aad".as_bytes();

    let (pubkey, _, contexts) = setup_fast(threshold, shares_num, rng);
    let g_inv = &contexts[0].setup_params.g_inv;
    let ciphertext = encrypt(msg, aad, &pubkey, rng);

    let bad_aad = "bad aad".as_bytes();
    assert!(contexts[0].create_share(&ciphertext, bad_aad, g_inv).is_err());
}

#[test]
fn simple_decryption_share_validation() {
    let rng = &mut test_rng();
    let shares_num = 16;
    let threshold = shares_num * 2 / 3;
    let msg: &[u8] = "abc".as_bytes();
    let aad: &[u8] = "my-aad".as_bytes();

    let (pubkey, _, contexts) = setup_simple(threshold, shares_num, rng);
    let _g_inv = &contexts[0].setup_params.g_inv;
    let ciphertext = encrypt(msg, aad, &pubkey, rng);

    let bad_aad = "bad aad".as_bytes();
    assert!(contexts[0].create_share(&ciphertext, bad_aad).is_err());
}

#[test]
fn fast_threshold_encryption() {
    let mut rng = &mut test_rng();
    let shares_num = 16;
    let threshold = shares_num * 2 / 3;
    let msg: &[u8] = "abc".as_bytes();
    let aad: &[u8] = "my-aad".as_bytes();

    let (pubkey, _, contexts) = setup_fast(threshold, shares_num, &mut rng);
    let g_inv = &contexts[0].setup_params.g_inv;
    let ciphertext = encrypt(msg, aad, &pubkey, rng);

    let mut decryption_shares: Vec<DecryptionShareFast> = vec![];
    for context in contexts.iter() {
        decryption_shares.push(context.create_share(&ciphertext, aad, g_inv).unwrap());
    }

    let prepared_blinded_key_shares =
        prepare_combine_fast(&contexts[0].public_decryption_contexts, &decryption_shares);

    let shared_secret = checked_share_combine_fast(
        &contexts[0].public_decryption_contexts,
        &ciphertext,
        &decryption_shares,
        &prepared_blinded_key_shares,
    )
    .unwrap();

    test_ciphertext_validation_fails(msg, aad, &ciphertext, &shared_secret, g_inv);
}

fn make_shared_secret(
    pub_contexts: &[PublicDecryptionContextSimple],
    decryption_shares: &Vec<DecryptionShareSimple>,
) -> Gt {
    let domain: Vec<Fr> = pub_contexts.iter().map(|c| c.domain.clone()).collect();
    let lagrange = prepare_combine_simple(&domain);
    share_combine_simple(decryption_shares, &lagrange)
}

fn make_shared_secret_from_contexts(
    contexts: &[PrivateDecryptionContextSimple],
    ciphertext: &Ciphertext,
    aad: &[u8],
    _g_inv: &G1,
) -> Gt {
    let decryption_shares: Vec<DecryptionShareSimple> = contexts
        .iter()
        .map(|c| c.create_share(ciphertext, aad).unwrap())
        .collect();
    make_shared_secret(&contexts[0].public_decryption_contexts, &decryption_shares)
}

#[test]
fn simple_threshold_decryption() {
    let mut rng = &mut test_rng();
    let shares_num = 16;
    let threshold = shares_num * 2 / 3;
    let msg: &[u8] = "abc".as_bytes();
    let aad: &[u8] = "my-aad".as_bytes();

    let (pubkey, _, contexts) = setup_simple(threshold, shares_num, &mut rng);
    let g_inv = &contexts[0].setup_params.g_inv;

    let ciphertext = encrypt(msg, aad, &pubkey, rng);

    let decryption_shares: Vec<DecryptionShareSimple> = contexts
        .iter()
        .map(|c| c.create_share(&ciphertext, aad).unwrap())
        .collect();

    let shared_secret =
        make_shared_secret(&contexts[0].public_decryption_contexts, &decryption_shares);

    test_ciphertext_validation_fails(msg, aad, &ciphertext, &shared_secret, g_inv);
}

#[test]
fn simple_threshold_decryption_precomputed() {
    let mut rng = &mut test_rng();
    let threshold = 16 * 2 / 3;
    let shares_num = 16;
    let msg: &[u8] = "abc".as_bytes();
    let aad: &[u8] = "my-aad".as_bytes();

    let (pubkey, _, contexts) = setup_simple(threshold, shares_num, &mut rng);
    let g_inv = &contexts[0].setup_params.g_inv;
    let ciphertext = encrypt(msg, aad, &pubkey, rng);

    let domain: Vec<Fr> = contexts[0]
        .public_decryption_contexts
        .iter()
        .map(|c| c.domain.clone())
        .collect();
    let lagrange_coeffs = prepare_combine_simple(&domain);

    let decryption_shares: Vec<DecryptionShareSimple> = contexts
        .iter()
        .zip(lagrange_coeffs.iter())
        .map(|(context, lagrange_coeff)| {
            context.create_share_precomputed(&ciphertext, lagrange_coeff)
        })
        .collect();

    let shared_secret = share_combine_simple_precomputed(&decryption_shares);

    test_ciphertext_validation_fails(msg, aad, &ciphertext, &shared_secret, g_inv);
}

#[test]
fn simple_threshold_decryption_share_verification() {
    let mut rng = &mut test_rng();
    let shares_num = 16;
    let threshold = shares_num * 2 / 3;
    let msg: &[u8] = "abc".as_bytes();
    let aad: &[u8] = "my-aad".as_bytes();

    let (pubkey, _, contexts) = setup_simple(threshold, shares_num, &mut rng);

    let ciphertext = encrypt(msg, aad, &pubkey, rng);

    let decryption_shares: Vec<DecryptionShareSimple> = contexts
        .iter()
        .map(|c| c.create_share(&ciphertext, aad).unwrap())
        .collect();

    // In the simple variant, decryption shares are verified only after a
    // failed combination; the happy path skips the checks.

    let pub_contexts = &contexts[0].public_decryption_contexts;
    assert!(verify_decryption_shares_simple(
        pub_contexts,
        &ciphertext,
        &decryption_shares,
    ));

    // Now, a tampered decryption share must fail verification.

    let mut has_bad_checksum = decryption_shares[0].clone();
    has_bad_checksum.validator_checksum =
        scale_g1_by_random(&has_bad_checksum.validator_checksum, rng);

    assert!(!has_bad_checksum.verify(
        &pub_contexts[0].blinded_key_share.blinded_key_share,
        &pub_contexts[0].validator_public_key,
        &pub_contexts[0].h,
        &ciphertext,
    ));

    let mut has_bad_share = decryption_shares[0].clone();
    has_bad_share.decryption_share = scale_gt_by_random(&has_bad_share.decryption_share, rng);

    assert!(!has_bad_share.verify(
        &pub_contexts[0].blinded_key_share.blinded_key_share,
        &pub_contexts[0].validator_public_key,
        &pub_contexts[0].h,
        &ciphertext,
    ));
}

#[test]
fn simple_threshold_decryption_with_share_recovery_at_selected_point() {
    let rng = &mut test_rng();
    let shares_num = 16;
    let threshold = shares_num * 2 / 3;

    let (_, _, mut contexts) = setup_simple(threshold, shares_num, rng);

    // First, save the soon-to-be-removed participant.
    let selected_participant = contexts.pop().unwrap();
    let x_r = selected_participant
        .public_decryption_contexts
        .last()
        .unwrap()
        .domain
        .clone();
    let original_private_key_share = selected_participant.private_key_share;

    // Remove one participant from the contexts and all nested structures.
    let mut remaining_participants = contexts;
    for p in &mut remaining_participants {
        p.public_decryption_contexts.pop().unwrap();
    }

    // Each participant prepares an update for each other participant.
    let domain_points: Vec<Fr> = remaining_participants[0]
        .public_decryption_contexts
        .iter()
        .map(|c| c.domain.clone())
        .collect();
    let h = remaining_participants[0].public_decryption_contexts[0].h.clone();
    let share_updates: HashMap<usize, Vec<ferveo::curve::G2>> = remaining_participants
        .iter()
        .map(|p| {
            let deltas_i =
                prepare_share_updates_for_recovery(&domain_points, &h, &x_r, threshold, rng);
            (p.index, deltas_i)
        })
        .collect();

    // Participants share updates and update their shares.
    let new_share_fragments: Vec<_> = remaining_participants
        .iter()
        .map(|p| {
            let updates_for_participant: Vec<ferveo::curve::G2> = share_updates
                .values()
                .map(|updates| updates.get(p.index).unwrap().clone())
                .collect();

            update_share_for_recovery(&p.private_key_share, &updates_for_participant)
        })
        .collect();

    // Now, combine the new share fragments into a new share.
    let domain_points: Vec<Fr> = remaining_participants[0]
        .public_decryption_contexts
        .iter()
        .map(|ctxt| ctxt.domain.clone())
        .collect();
    let new_private_key_share =
        recover_share_from_updated_private_shares(&x_r, &domain_points, &new_share_fragments);

    assert_eq!(new_private_key_share, original_private_key_share);
}

#[test]
fn simple_threshold_decryption_with_share_recovery_at_random_point() {
    let rng = &mut test_rng();
    let shares_num = 16;
    let threshold = shares_num * 2 / 3;
    let msg: &[u8] = "abc".as_bytes();
    let aad: &[u8] = "my-aad".as_bytes();

    let (pubkey, _, contexts) = setup_simple(threshold, shares_num, rng);
    let g_inv = &contexts[0].setup_params.g_inv;
    let ciphertext = encrypt(msg, aad, &pubkey, rng);

    // Create an initial shared secret.
    let old_shared_secret =
        make_shared_secret_from_contexts(&contexts, &ciphertext, aad, g_inv);

    // Recover a new share at a random point and check that the shared
    // secret is still the same.
    let x_r = ark_fr_to_fr(ark_bls12_381::Fr::rand(rng));

    // Remove one participant from the contexts and all nested structures.
    let mut remaining_participants = contexts.clone();
    let removed_participant = remaining_participants.pop().unwrap();
    for p in &mut remaining_participants {
        p.public_decryption_contexts.pop().unwrap();
    }

    // Each participant prepares an update for each other participant.
    let domain_points: Vec<Fr> = remaining_participants[0]
        .public_decryption_contexts
        .iter()
        .map(|c| c.domain.clone())
        .collect();
    let h = remaining_participants[0].public_decryption_contexts[0].h.clone();
    let share_updates: HashMap<usize, Vec<ferveo::curve::G2>> = remaining_participants
        .iter()
        .map(|p| {
            let deltas_i =
                prepare_share_updates_for_recovery(&domain_points, &h, &x_r, threshold, rng);
            (p.index, deltas_i)
        })
        .collect();

    // Participants share updates and update their shares.
    let new_share_fragments: Vec<_> = remaining_participants
        .iter()
        .map(|p| {
            let updates_for_participant: Vec<ferveo::curve::G2> = share_updates
                .values()
                .map(|updates| updates.get(p.index).unwrap().clone())
                .collect();

            update_share_for_recovery(&p.private_key_share, &updates_for_participant)
        })
        .collect();

    // Now, combine the new share fragments into a new share.
    let domain_points: Vec<Fr> = remaining_participants[0]
        .public_decryption_contexts
        .iter()
        .map(|ctxt| ctxt.domain.clone())
        .collect();
    let new_private_key_share =
        recover_share_from_updated_private_shares(&x_r, &domain_points, &new_share_fragments);

    // Get decryption shares from the remaining participants.
    let mut decryption_shares: Vec<DecryptionShareSimple> = remaining_participants
        .iter()
        .map(|c| c.create_share(&ciphertext, aad).unwrap())
        .collect();

    // Create a decryption share from the recovered private key share.
    let new_validator_decryption_key = ark_fr_to_fr(ark_bls12_381::Fr::rand(rng));
    let validator_index = removed_participant.index;
    decryption_shares.push(
        DecryptionShareSimple::create(
            validator_index,
            &new_validator_decryption_key,
            &new_private_key_share,
            &ciphertext,
            aad,
            g_inv,
        )
        .unwrap(),
    );

    // Create a shared secret from the remaining shares and the recovered one.
    let new_shared_secret = make_shared_secret(
        &remaining_participants[0].public_decryption_contexts,
        &decryption_shares,
    );

    assert_eq!(old_shared_secret, new_shared_secret);
}

#[test]
fn simple_threshold_decryption_with_share_refreshing() {
    let rng = &mut test_rng();
    let shares_num = 16;
    let threshold = shares_num * 2 / 3;
    let msg: &[u8] = "abc".as_bytes();
    let aad: &[u8] = "my-aad".as_bytes();

    let (pubkey, _, contexts) = setup_simple(threshold, shares_num, rng);
    let g_inv = &contexts[0].setup_params.g_inv;
    let pub_contexts = contexts[0].public_decryption_contexts.clone();
    let ciphertext = encrypt(msg, aad, &pubkey, rng);

    // Create an initial shared secret.
    let old_shared_secret =
        make_shared_secret_from_contexts(&contexts, &ciphertext, aad, g_inv);

    // Refresh the shares and check that the shared secret is the same.

    // Dealer computes a new random polynomial vanishing at zero.
    let polynomial = make_random_polynomial_at(threshold, &fr_zero(), rng);

    // Dealer shares the polynomial with participants; each computes a
    // new decryption share from its refreshed private key share.
    let new_decryption_shares: Vec<DecryptionShareSimple> = contexts
        .iter()
        .enumerate()
        .map(|(i, p)| {
            let private_key_share = refresh_private_key_share(
                &p.setup_params.h,
                &p.public_decryption_contexts[i].domain,
                &polynomial,
                &p.private_key_share,
            );
            DecryptionShareSimple::create(
                p.index,
                &p.validator_private_key,
                &private_key_share,
                &ciphertext,
                aad,
                g_inv,
            )
            .unwrap()
        })
        .collect();

    let new_shared_secret = make_shared_secret(&pub_contexts, &new_decryption_shares);

    assert_eq!(old_shared_secret, new_shared_secret);
}
