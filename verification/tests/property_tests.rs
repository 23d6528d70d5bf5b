//! Cross-cutting checks: order independence of the session, the error
//! taxonomy, exact values of the small formulas, and edge cases.

use ark_ff::Field;
use ark_serialize::CanonicalDeserialize;
use ark_serialize::CanonicalSerialize;
use ark_std::UniformRand;
use rand::rngs::StdRng;
use rand::SeedableRng;

use ferveo::ciphertext::checked_decrypt;
use ferveo::ciphertext::checked_decrypt_with_shared_secret;
use ferveo::ciphertext::encrypt;
use ferveo::ciphertext::Ciphertext;
use ferveo::combine::checked_share_combine_fast;
use ferveo::combine::prepare_combine_fast;
use ferveo::combine::prepare_combine_simple;
use ferveo::combine::share_combine_simple;
use ferveo::curve::fr_from_bytes;
use ferveo::curve::fr_one;
use ferveo::curve::fr_zero;
use ferveo::curve::g1_identity;
use ferveo::curve::gt_from_bytes;
use ferveo::curve::Fr;
use ferveo::domain::Domain;
use ferveo::dkg::DkgState;
use ferveo::dkg::Message;
use ferveo::dkg::Params;
use ferveo::dkg::PubliclyVerifiableDkg;
use ferveo::error::Error;
use ferveo::error::ThresholdEncryptionError;
use ferveo::keypair::Keypair;
use ferveo::refresh::evaluate_polynomial;
use ferveo::refresh::make_random_polynomial_at;
use ferveo::setup::setup_fast;
use ferveo::setup::setup_simple;
use ferveo::validator::ExternalValidator;

fn test_rng() -> StdRng {
    StdRng::seed_from_u64(7)
}

fn ark_fr(x: ark_bls12_381::Fr) -> Fr {
    let mut bytes: Vec<u8> = Vec::new();
    x.serialize_compressed(&mut bytes).unwrap();
    fr_from_bytes(&bytes).unwrap()
}

fn fr_to_ark(x: &Fr) -> ark_bls12_381::Fr {
    let bytes = x.to_bytes();
    ark_bls12_381::Fr::deserialize_compressed(&bytes[..]).unwrap()
}

fn gen_validators_with_keypairs(n: u32) -> (Vec<Keypair>, Vec<ExternalValidator>) {
    let rng = &mut test_rng();
    let keypairs: Vec<Keypair> = (0..n).map(|_| Keypair::new(rng)).collect();
    let validators = (0..n)
        .map(|i| ExternalValidator {
            address: format!("validator_{}", i),
            public_key: keypairs[i as usize].public(),
        })
        .collect();
    (keypairs, validators)
}

fn fresh_dkg(security_threshold: u32, shares_num: u32, me: usize) -> PubliclyVerifiableDkg {
    let (keypairs, validators) = gen_validators_with_keypairs(shares_num);
    PubliclyVerifiableDkg::new(
        &validators,
        Params { tau: 0, security_threshold, shares_num },
        &validators[me],
        keypairs[me].clone(),
    )
    .expect("Test failed")
}

/// The final key does not depend on the order the dealings arrive in.
#[test]
fn dkg_final_key_is_order_independent() {
    let rng = &mut test_rng();
    let transcripts: Vec<Message> = (0..4)
        .map(|i| fresh_dkg(2, 4, i).share(rng).expect("Test failed"))
        .collect();

    let mut dkg_a = fresh_dkg(2, 4, 0);
    let mut dkg_b = fresh_dkg(2, 4, 0);

    for sender in [0usize, 1, 2, 3] {
        dkg_a
            .apply_message(dkg_a.validators[sender].validator.clone(), transcripts[sender].clone())
            .expect("Test failed");
    }
    for sender in [3usize, 1, 0, 2] {
        dkg_b
            .apply_message(dkg_b.validators[sender].validator.clone(), transcripts[sender].clone())
            .expect("Test failed");
    }

    assert_eq!(dkg_a.final_key(), dkg_b.final_key());

    let aggregate = dkg_a.aggregate().expect("Test failed");
    let sender_a = dkg_a.validators[0].validator.clone();
    let sender_b = dkg_b.validators[0].validator.clone();
    dkg_a.apply_message(sender_a, aggregate.clone()).expect("Test failed");
    dkg_b.apply_message(sender_b, aggregate).expect("Test failed");
    match (&dkg_a.state, &dkg_b.state) {
        (DkgState::Success { final_key: a }, DkgState::Success { final_key: b }) => {
            assert_eq!(a, b)
        }
        _ => panic!("Test failed"),
    }
}

/// Construction rejects a share count that is not a power of two, a
/// threshold out of range, and an owner missing from the list.
#[test]
fn dkg_new_rejects_invalid_parameters() {
    let (keypairs, validators) = gen_validators_with_keypairs(3);
    let err = PubliclyVerifiableDkg::new(
        &validators,
        Params { tau: 0, security_threshold: 2, shares_num: 3 },
        &validators[0],
        keypairs[0].clone(),
    )
    .expect_err("Test failed");
    assert_eq!(err, Error::InvalidParameters);

    let (keypairs, validators) = gen_validators_with_keypairs(4);
    let err = PubliclyVerifiableDkg::new(
        &validators,
        Params { tau: 0, security_threshold: 0, shares_num: 4 },
        &validators[0],
        keypairs[0].clone(),
    )
    .expect_err("Test failed");
    assert_eq!(err, Error::InvalidParameters);

    let err = PubliclyVerifiableDkg::new(
        &validators,
        Params { tau: 0, security_threshold: 5, shares_num: 4 },
        &validators[0],
        keypairs[0].clone(),
    )
    .expect_err("Test failed");
    assert_eq!(err, Error::InvalidParameters);

    let stranger = ExternalValidator {
        address: "stranger".into(),
        public_key: keypairs[0].public(),
    };
    let err = PubliclyVerifiableDkg::new(
        &validators,
        Params { tau: 0, security_threshold: 2, shares_num: 4 },
        &stranger,
        keypairs[0].clone(),
    )
    .expect_err("Test failed");
    assert_eq!(err, Error::InvalidParameters);
}

/// Each rejection of `verify_message` reports its own cause.
#[test]
fn dkg_verify_message_error_taxonomy() {
    let rng = &mut test_rng();
    let mut dkg = fresh_dkg(2, 4, 0);
    let deal = dkg.share(rng).expect("Test failed");

    // Unknown sender.
    let stranger = ExternalValidator {
        address: "stranger".into(),
        public_key: Keypair::new(rng).public(),
    };
    assert_eq!(dkg.verify_message(&stranger, &deal), Err(Error::UnknownSender));

    // Duplicate dealer.
    let sender = dkg.validators[0].validator.clone();
    dkg.apply_message(sender.clone(), deal.clone()).expect("Test failed");
    assert_eq!(dkg.verify_message(&sender, &deal), Err(Error::DuplicateDealer));

    // Tampered transcript.
    let other = dkg.validators[1].validator.clone();
    let tampered = match &deal {
        Message::Deal(pvss) => {
            let mut pvss = pvss.clone();
            pvss.commitments[0] = g1_identity();
            Message::Deal(pvss)
        }
        _ => panic!("Test failed"),
    };
    assert_eq!(dkg.verify_message(&other, &tampered), Err(Error::InvalidTranscript));

    // State guard.
    dkg.state = DkgState::Success { final_key: g1_identity() };
    assert_eq!(dkg.verify_message(&other, &deal), Err(Error::StateGuard));
}

/// An aggregation carrying fewer transcripts than the reconstruction
/// threshold is rejected for that reason.
#[test]
fn dkg_aggregation_below_threshold_is_rejected() {
    let rng = &mut test_rng();
    let transcripts: Vec<Message> = (0..4)
        .map(|i| fresh_dkg(2, 4, i).share(rng).expect("Test failed"))
        .collect();
    let mut dkg = fresh_dkg(2, 4, 0);
    // One dealing stored, then the state forced forward: the aggregate
    // holds one transcript where the threshold asks for two.
    dkg.apply_message(dkg.validators[0].validator.clone(), transcripts[0].clone())
        .expect("Test failed");
    dkg.state = DkgState::Dealt;
    let aggregate = dkg.aggregate().expect("Test failed");
    let sender = dkg.validators[0].validator.clone();
    assert_eq!(dkg.verify_message(&sender, &aggregate), Err(Error::InsufficientAggregation));
}

/// A locally derived key that disagrees with the declared one is
/// reported as such.
#[test]
fn dkg_wrong_final_key_is_reported() {
    let rng = &mut test_rng();
    let transcripts: Vec<Message> = (0..4)
        .map(|i| fresh_dkg(2, 4, i).share(rng).expect("Test failed"))
        .collect();
    let mut dkg = fresh_dkg(2, 4, 0);
    for sender in 0..4usize {
        dkg.apply_message(dkg.validators[sender].validator.clone(), transcripts[sender].clone())
            .expect("Test failed");
    }
    let mut aggregate = dkg.aggregate().expect("Test failed");
    if let Message::Aggregate(a) = &mut aggregate {
        a.final_key = g1_identity();
    }
    let sender = dkg.validators[0].validator.clone();
    assert_eq!(dkg.verify_message(&sender, &aggregate), Err(Error::WrongFinalKey));
}

/// Unsealing with the wrong shared secret fails on the payload check,
/// not on the public pairing check.
#[test]
fn decrypt_with_wrong_shared_secret_fails_on_plaintext() {
    let rng = &mut test_rng();
    let (pubkey, _, contexts) = setup_simple(2, 4, rng);
    let g_inv = &contexts[0].setup_params.g_inv;
    let ciphertext = encrypt(b"abc", b"my-aad", &pubkey, rng);

    let mut bogus_bytes: Vec<u8> = Vec::new();
    ark_bls12_381::Fq12::rand(rng).serialize_compressed(&mut bogus_bytes).unwrap();
    let bogus_secret = gt_from_bytes(&bogus_bytes).unwrap();

    let err = checked_decrypt_with_shared_secret(&ciphertext, b"my-aad", g_inv, &bogus_secret)
        .expect_err("Test failed");
    assert_eq!(err, ThresholdEncryptionError::PlaintextVerificationFailed);
}

/// A tampered fast share is caught by the checked combiner.
#[test]
fn tampered_fast_share_fails_checked_combine() {
    let rng = &mut test_rng();
    let (pubkey, _, contexts) = setup_fast(2, 4, rng);
    let g_inv = &contexts[0].setup_params.g_inv;
    let ciphertext = encrypt(b"abc", b"my-aad", &pubkey, rng);

    let mut shares = Vec::new();
    for context in contexts.iter() {
        shares.push(context.create_share(&ciphertext, b"my-aad", g_inv).unwrap());
    }
    let prepared = prepare_combine_fast(&contexts[0].public_decryption_contexts, &shares);

    // Swap one share's point for the identity.
    let bytes = {
        let mut out: Vec<u8> = Vec::new();
        <ark_bls12_381::G1Affine as ark_ec::AffineRepr>::zero()
            .serialize_compressed(&mut out)
            .unwrap();
        out
    };
    shares[0].decryption_share = ferveo::curve::g1_from_bytes(&bytes).unwrap();

    let err = checked_share_combine_fast(
        &contexts[0].public_decryption_contexts,
        &ciphertext,
        &shares,
        &prepared,
    )
    .expect_err("Test failed");
    assert_eq!(err, ThresholdEncryptionError::DecryptionShareVerificationFailed);
}

/// A cohort of one: the whole pipeline still closes.
#[test]
fn single_validator_threshold_decryption() {
    let rng = &mut test_rng();
    let (pubkey, privkey, contexts) = setup_simple(1, 1, rng);
    let g_inv = &contexts[0].setup_params.g_inv;
    let ciphertext = encrypt(b"", b"", &pubkey, rng);

    let plain = checked_decrypt(&ciphertext, b"", g_inv, &privkey).unwrap();
    assert_eq!(plain, b"");

    let share = contexts[0].create_share(&ciphertext, b"").unwrap();
    let domain = vec![contexts[0].public_decryption_contexts[0].domain.clone()];
    let lagrange = prepare_combine_simple(&domain);
    let shared_secret = share_combine_simple(&vec![share], &lagrange);
    let plain =
        checked_decrypt_with_shared_secret(&ciphertext, b"", g_inv, &shared_secret).unwrap();
    assert_eq!(plain, b"");
}

/// The Lagrange basis of a single point is the constant one, and over
/// two points it takes its textbook value at zero.
#[test]
fn lagrange_coefficients_exact_values() {
    let one_point = vec![fr_one()];
    let lagrange = prepare_combine_simple(&one_point);
    assert_eq!(lagrange, vec![fr_one()]);

    let domain = Domain::new(2).unwrap();
    let points = domain.points();
    assert_eq!(points.len(), 2);
    let lagrange = prepare_combine_simple(&points);

    let p0 = fr_to_ark(&points[0]);
    let p1 = fr_to_ark(&points[1]);
    let zero = ark_bls12_381::Fr::from(0u64);
    let expected0 = (zero - p1) * (p0 - p1).inverse().unwrap();
    let expected1 = (zero - p0) * (p1 - p0).inverse().unwrap();
    assert_eq!(lagrange[0], ark_fr(expected0));
    assert_eq!(lagrange[1], ark_fr(expected1));
}

/// The size-four domain is the cyclic group of the fourth roots of
/// unity: distinct points whose generator has order four.
#[test]
fn domain_points_are_fourth_roots_of_unity() {
    let domain = Domain::new(4).unwrap();
    let points = domain.points();
    assert_eq!(points.len(), 4);
    for i in 0..4 {
        for j in 0..4 {
            if i != j {
                assert_ne!(points[i], points[j]);
            }
        }
    }
    let omega = fr_to_ark(&domain.generator);
    assert_eq!(omega * omega * omega * omega, ark_bls12_381::Fr::from(1u64));
    assert_eq!(points[0], fr_one());

    assert!(Domain::new(3).is_none());
    assert!(Domain::new(0).is_none());
}

/// Horner evaluation on a concrete polynomial: 2 + 3x at x = 5 is 17.
#[test]
fn polynomial_evaluation_exact_value() {
    let poly = vec![ark_fr(ark_bls12_381::Fr::from(2u64)), ark_fr(ark_bls12_381::Fr::from(3u64))];
    let x = ark_fr(ark_bls12_381::Fr::from(5u64));
    let value = evaluate_polynomial(&poly, &x);
    assert_eq!(value, ark_fr(ark_bls12_381::Fr::from(17u64)));
}

/// A dealt refresh polynomial really vanishes at its root.
#[test]
fn random_polynomial_vanishes_at_root() {
    let rng = &mut test_rng();
    let x_r = ark_fr(ark_bls12_381::Fr::rand(rng));
    let poly = make_random_polynomial_at(6, &x_r, rng);
    assert_eq!(poly.len(), 6);
    assert_eq!(evaluate_polynomial(&poly, &x_r), fr_zero());
    // And generically not at other points.
    let elsewhere = ark_fr(ark_bls12_381::Fr::rand(rng));
    assert_ne!(evaluate_polynomial(&poly, &elsewhere), fr_zero());
}

/// The wire form round-trips, and damaged framing is rejected.
#[test]
fn ciphertext_wire_framing() {
    let rng = &mut test_rng();
    let (pubkey, _, _) = setup_simple(2, 4, rng);
    let ciphertext = encrypt(b"abc", b"my-aad", &pubkey, rng);
    let bytes = ciphertext.to_bytes();

    let parsed = Ciphertext::from_bytes(&bytes).unwrap();
    assert_eq!(parsed, ciphertext);

    // Truncated bytes are refused.
    assert!(Ciphertext::from_bytes(&bytes[..bytes.len() - 1]).is_none());
    assert!(Ciphertext::from_bytes(&bytes[..3]).is_none());

    // Trailing garbage is refused.
    let mut padded = bytes.clone();
    padded.push(0);
    assert!(Ciphertext::from_bytes(&padded).is_none());

    // A commitment that does not decode is refused.
    let mut mangled = bytes.clone();
    mangled[4] ^= 0xff;
    assert!(Ciphertext::from_bytes(&mangled).is_none());
}

/// The session-layer errors all display the uniform session message.
#[test]
fn error_messages() {
    assert_eq!(Error::UnknownSender.message(), "Something went wrong");
    assert_eq!(
        ThresholdEncryptionError::CiphertextVerificationFailed.message(),
        "ciphertext verification failed"
    );
    assert_eq!(
        ThresholdEncryptionError::DecryptionShareVerificationFailed.message(),
        "Decryption share verification failed"
    );
    assert_eq!(ThresholdEncryptionError::HashToCurveError.message(), "Could not hash to curve");
    assert_eq!(
        ThresholdEncryptionError::PlaintextVerificationFailed.message(),
        "plaintext verification failed"
    );
}

/// The whole pipeline over a session: four validators deal, two
/// dealings reach the threshold, one aggregation fixes the joint key,
/// a client encrypts under it, two validators produce verifiable
/// decryption shares from the aggregation, and the combined secret
/// unseals the payload.
#[test]
fn dkg_end_to_end_threshold_decryption() {
    let rng = &mut test_rng();
    let (keypairs, validators) = gen_validators_with_keypairs(4);
    let params = Params { tau: 0, security_threshold: 2, shares_num: 4 };

    let transcripts: Vec<Message> = (0..4usize)
        .map(|i| {
            let mut dealer = PubliclyVerifiableDkg::new(
                &validators,
                params,
                &validators[i],
                keypairs[i].clone(),
            )
            .expect("Test failed");
            dealer.share(rng).expect("Test failed")
        })
        .collect();

    // Each participating validator applies the same two dealings.
    let mut sessions: Vec<PubliclyVerifiableDkg> = (0..2usize)
        .map(|me| {
            let mut dkg = PubliclyVerifiableDkg::new(
                &validators,
                params,
                &validators[me],
                keypairs[me].clone(),
            )
            .expect("Test failed");
            for sender in 0..2usize {
                dkg.apply_message(validators[sender].clone(), transcripts[sender].clone())
                    .expect("Test failed");
            }
            assert!(matches!(dkg.state, DkgState::Dealt));
            dkg
        })
        .collect();

    // One of them aggregates; everyone verifies and applies.
    let aggregate = sessions[0].aggregate().expect("Test failed");
    let aggregated = match &aggregate {
        Message::Aggregate(a) => a.vss.clone(),
        _ => panic!("Test failed"),
    };
    for dkg in sessions.iter_mut() {
        assert!(dkg.verify_message(&validators[0], &aggregate).is_ok());
        dkg.apply_message(validators[0].clone(), aggregate.clone()).expect("Test failed");
        assert!(matches!(dkg.state, DkgState::Success { .. }));
        assert!(aggregated.validate(dkg));
    }

    // A client encrypts under the joint key.
    let final_key = sessions[0].final_key();
    let ciphertext = encrypt(b"abc", b"my-aad", &final_key, rng);
    let g_inv = sessions[0].g1_inv();
    let h = &sessions[0].pvss_params.h;

    // Two validators produce decryption shares, publicly verifiable
    // against their session public keys and aggregated shares.
    let shares: Vec<_> = sessions
        .iter()
        .enumerate()
        .map(|(i, dkg)| {
            let share = aggregated
                .create_decryption_share(dkg, &ciphertext, b"my-aad", &keypairs[i])
                .expect("Test failed");
            assert!(share.verify(
                &aggregated.shares[i],
                &keypairs[i].public().point,
                h,
                &ciphertext,
            ));
            share
        })
        .collect();

    // Combine at zero over the two participating domain points.
    let points = sessions[0].domain.points();
    let lagrange = prepare_combine_simple(&vec![points[0].clone(), points[1].clone()]);
    let shared_secret = share_combine_simple(&shares, &lagrange);

    let plain = checked_decrypt_with_shared_secret(&ciphertext, b"my-aad", &g_inv, &shared_secret)
        .expect("Test failed");
    assert_eq!(plain, b"abc");
}
