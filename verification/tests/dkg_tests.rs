//! The DKG session: dealing, verification, application, aggregation.

use rand::rngs::StdRng;
use rand::SeedableRng;

use ferveo::curve::g1_identity;
use ferveo::dkg::Aggregation;
use ferveo::dkg::DkgState;
use ferveo::dkg::Message;
use ferveo::dkg::Params;
use ferveo::dkg::PubliclyVerifiableDkg;
use ferveo::keypair::Keypair;
use ferveo::validator::ExternalValidator;

fn test_rng() -> StdRng {
    StdRng::seed_from_u64(0)
}

fn gen_n_keypairs(n: u32) -> Vec<Keypair> {
    let rng = &mut test_rng();
    (0..n).map(|_| Keypair::new(rng)).collect()
}

fn gen_keypairs() -> Vec<Keypair> {
    gen_n_keypairs(4)
}

fn gen_n_validators(keypairs: &[Keypair], n: u32) -> Vec<ExternalValidator> {
    (0..n)
        .map(|i| ExternalValidator {
            address: format!("validator_{}", i),
            public_key: keypairs[i as usize].public(),
        })
        .collect()
}

fn gen_validators(keypairs: &[Keypair]) -> Vec<ExternalValidator> {
    gen_n_validators(keypairs, 4)
}

fn setup_dkg_for_n_validators(
    security_threshold: u32,
    shares_num: u32,
    my_index: usize,
) -> PubliclyVerifiableDkg {
    let keypairs = gen_n_keypairs(shares_num);
    let validators = gen_n_validators(&keypairs, shares_num);
    let me = validators[my_index].clone();
    PubliclyVerifiableDkg::new(
        &validators,
        Params { tau: 0, security_threshold, shares_num },
        &me,
        keypairs[my_index].clone(),
    )
    .expect("Setup failed")
}

fn setup_dkg(validator: usize) -> PubliclyVerifiableDkg {
    setup_dkg_for_n_validators(2, 4, validator)
}

fn setup_dealt_dkg() -> PubliclyVerifiableDkg {
    setup_dealt_dkg_with_n_validators(2, 4)
}

fn setup_dealt_dkg_with_n_validators(
    security_threshold: u32,
    shares_num: u32,
) -> PubliclyVerifiableDkg {
    let rng = &mut test_rng();

    let transcripts: Vec<Message> = (0..shares_num)
        .map(|i| {
            let mut dkg =
                setup_dkg_for_n_validators(security_threshold, shares_num, i as usize);
            dkg.share(rng).expect("Test failed")
        })
        .collect();

    let mut dkg = setup_dkg_for_n_validators(security_threshold, shares_num, 0);
    for (sender, pvss) in transcripts.into_iter().enumerate() {
        dkg.apply_message(dkg.validators[sender].validator.clone(), pvss)
            .expect("Setup failed");
    }
    dkg
}

#[test]
fn test_dkg_fail_unknown_validator() {
    let rng = &mut test_rng();
    let keypairs = gen_keypairs();
    let keypair = Keypair::new(rng);
    let err = PubliclyVerifiableDkg::new(
        &gen_validators(&keypairs),
        Params { tau: 0, security_threshold: 4, shares_num: 8 },
        &ExternalValidator {
            address: "non-existant-validator".into(),
            public_key: keypair.public(),
        },
        keypair,
    )
    .expect_err("Test failed");
    assert_eq!(err.message(), "Something went wrong")
}

#[test]
fn test_pvss_dealing() {
    let rng = &mut test_rng();
    let mut transcripts = vec![];
    for i in 0..4 {
        let mut dkg = setup_dkg(i);
        transcripts.push(dkg.share(rng).expect("Test failed"));
    }
    let mut dkg = setup_dkg(0);

    let mut expected = 0u32;
    for (sender, pvss) in transcripts.iter().enumerate() {
        assert!(dkg
            .verify_message(&dkg.validators[sender].validator, pvss)
            .is_ok());
        assert!(dkg
            .apply_message(dkg.validators[sender].validator.clone(), pvss.clone())
            .is_ok());

        expected += 1;
        if sender < (dkg.params.security_threshold - 1) as usize {
            match dkg.state {
                DkgState::Sharing { accumulated_shares, .. } => {
                    assert_eq!(accumulated_shares, expected)
                }
                _ => panic!("Test failed"),
            }
        } else {
            assert!(matches!(dkg.state, DkgState::Dealt));
        }
    }
}

#[test]
fn test_pvss_from_unknown_dealer_rejected() {
    let rng = &mut test_rng();
    let mut dkg = setup_dkg(0);
    assert!(matches!(
        dkg.state,
        DkgState::Sharing { accumulated_shares: 0, block: 0 }
    ));
    let pvss = dkg.share(rng).expect("Test failed");
    let sender = ExternalValidator {
        address: "fake-address".into(),
        public_key: Keypair::new(rng).public(),
    };
    assert!(dkg.verify_message(&sender, &pvss).is_err());
    assert!(dkg.apply_message(sender, pvss).is_err());
    assert!(matches!(
        dkg.state,
        DkgState::Sharing { accumulated_shares: 0, block: 0 }
    ));
}

#[test]
fn test_pvss_sent_twice_rejected() {
    let rng = &mut test_rng();
    let mut dkg = setup_dkg(0);
    assert!(matches!(
        dkg.state,
        DkgState::Sharing { accumulated_shares: 0, block: 0 }
    ));

    let pvss = dkg.share(rng).expect("Test failed");
    let sender = dkg.validators[3].validator.clone();

    assert!(dkg.verify_message(&sender, &pvss).is_ok());
    assert!(dkg.apply_message(sender.clone(), pvss.clone()).is_ok());
    assert!(matches!(
        dkg.state,
        DkgState::Sharing { accumulated_shares: 1, block: 0 }
    ));

    assert!(dkg.verify_message(&sender, &pvss).is_err());
}

#[test]
fn test_own_pvss() {
    let rng = &mut test_rng();
    let mut dkg = setup_dkg(0);
    assert!(matches!(
        dkg.state,
        DkgState::Sharing { accumulated_shares: 0, block: 0 }
    ));

    let pvss = dkg.share(rng).expect("Test failed");
    assert!(matches!(
        dkg.state,
        DkgState::Sharing { accumulated_shares: 0, block: 0 }
    ));

    let sender = dkg.validators[0].validator.clone();

    assert!(dkg.verify_message(&sender, &pvss).is_ok());
    assert!(dkg.apply_message(sender, pvss).is_ok());
    assert!(matches!(
        dkg.state,
        DkgState::Sharing { accumulated_shares: 1, block: 0 }
    ));
}

#[test]
fn test_pvss_cannot_share_from_wrong_state() {
    let rng = &mut test_rng();
    let mut dkg = setup_dkg(0);
    assert!(matches!(
        dkg.state,
        DkgState::Sharing { accumulated_shares: 0, block: 0 }
    ));

    dkg.state = DkgState::Success { final_key: g1_identity() };
    assert!(dkg.share(rng).is_err());

    dkg.state = DkgState::Dealt;
    assert!(dkg.share(rng).is_ok());
}

#[test]
fn test_share_message_state_guards() {
    let rng = &mut test_rng();
    let mut dkg = setup_dkg(0);
    let pvss = dkg.share(rng).expect("Test failed");
    assert!(matches!(
        dkg.state,
        DkgState::Sharing { accumulated_shares: 0, block: 0 }
    ));
    let sender = dkg.validators[3].validator.clone();
    dkg.state = DkgState::Success { final_key: g1_identity() };
    assert!(dkg.verify_message(&sender, &pvss).is_err());
    assert!(dkg.apply_message(sender.clone(), pvss.clone()).is_err());

    dkg.state = DkgState::Dealt;
    assert!(dkg.verify_message(&sender, &pvss).is_ok());
    assert!(dkg.apply_message(sender, pvss).is_ok());
    assert!(matches!(dkg.state, DkgState::Dealt))
}

#[test]
fn test_aggregate() {
    let mut dkg = setup_dealt_dkg();
    let aggregate = dkg.aggregate().expect("Test failed");
    let sender = dkg.validators[dkg.me].validator.clone();
    assert!(dkg.verify_message(&sender, &aggregate).is_ok());
    assert!(dkg.apply_message(sender, aggregate).is_ok());
    assert!(matches!(dkg.state, DkgState::Success { .. }));
}

#[test]
fn test_aggregate_state_guards() {
    let mut dkg = setup_dealt_dkg();
    dkg.state = DkgState::Sharing { accumulated_shares: 0, block: 0 };
    assert!(dkg.aggregate().is_err());
    dkg.state = DkgState::Success { final_key: g1_identity() };
    assert!(dkg.aggregate().is_err());
}

#[test]
fn test_aggregate_message_state_guards() {
    let mut dkg = setup_dealt_dkg();
    let aggregate = dkg.aggregate().expect("Test failed");
    let sender = dkg.validators[dkg.me].validator.clone();
    dkg.state = DkgState::Sharing { accumulated_shares: 0, block: 0 };
    assert!(dkg.verify_message(&sender, &aggregate).is_err());
    assert!(dkg.apply_message(sender.clone(), aggregate.clone()).is_err());
    dkg.state = DkgState::Success { final_key: g1_identity() };
    assert!(dkg.verify_message(&sender, &aggregate).is_err());
    assert!(dkg.apply_message(sender, aggregate).is_err())
}

#[test]
fn test_aggregate_wont_verify_if_under_threshold() {
    let mut dkg = setup_dealt_dkg();
    dkg.params.shares_num = 10;
    let aggregate = dkg.aggregate().expect("Test failed");
    let sender = dkg.validators[dkg.me].validator.clone();
    assert!(dkg.verify_message(&sender, &aggregate).is_err());
}

#[test]
fn test_aggregate_wont_verify_if_wrong_key() {
    let mut dkg = setup_dealt_dkg();
    let mut aggregate = dkg.aggregate().expect("Test failed");
    while dkg.final_key() == g1_identity() {
        dkg = setup_dealt_dkg();
    }
    if let Message::Aggregate(Aggregation { final_key, .. }) = &mut aggregate {
        *final_key = g1_identity();
    }
    let sender = dkg.validators[dkg.me].validator.clone();
    assert!(dkg.verify_message(&sender, &aggregate).is_err());
}
