//! Publicly verifiable distributed key generation and threshold decryption
//! over BLS12-381.
//!
//! A cohort of validators jointly produces a public encryption key whose
//! secret key is shared under a threshold.  Anyone may encrypt against the
//! joint key; decryption takes a threshold of validators, each contributing
//! a verifiable decryption share, which a combiner folds into the shared
//! secret that unseals the payload.
//!
//! The curve layer ([`curve`], [`dem`]) carries group elements and scalars
//! as their canonical encodings and trusts one wrapper per outside
//! operation; everything above it is verified: the evaluation domain
//! ([`domain`]), identities and keypairs ([`validator`], [`keypair`]),
//! sharing transcripts and their public checks ([`pvss`]), the session
//! state machine with its order-independence lemmas ([`dkg`]), ciphertexts
//! and their wire form ([`ciphertext`]), decryption shares
//! ([`decryption`]), the Lagrange combiner ([`combine`]), share refresh
//! and recovery ([`refresh`]), and the dealer-based setup ([`setup`]).

pub mod ciphertext;
pub mod combine;
pub mod context;
pub mod curve;
pub mod decryption;
pub mod dkg;
pub mod dem;
pub mod domain;
pub mod error;
pub mod keypair;
pub mod pvss;
pub mod refresh;
pub mod setup;
pub mod validator;

pub use error::Error;
pub use error::ThresholdEncryptionError;
