//! Decryption contexts: the per-validator key material produced by the
//! setup of the threshold encryption engine, split into the private part
//! a validator keeps and the public part everyone sees.

use vstd::prelude::*;

use crate::curve::g2_mul;
use crate::curve::g2_mul_generator;
use crate::curve::g2_mul_of;
use crate::curve::g2_base_pow_of;
use crate::curve::Fr;
use crate::curve::G1;
use crate::curve::G2;

verus! {

/// The fixed elements a decryption context carries: the validator's
/// blinding factor with its inverse, and the generators with their
/// negations (the negated forms serve the product-of-pairings checks).
#[derive(Clone, PartialEq, Eq, Debug)]
pub struct SetupParams {
    /// The blinding factor.
    pub b: Fr,
    /// The inverse of the blinding factor.
    pub b_inv: Fr,
    /// The G1 generator.
    pub g: G1,
    /// The negated G2 generator.
    pub h_inv: G2,
    /// The negated G1 generator.
    pub g_inv: G1,
    /// The G2 generator.
    pub h: G2,
}

/// A validator's private key share: a G2 point on the shared polynomial.
#[derive(Clone, PartialEq, Eq, Debug)]
pub struct PrivateKeyShare {
    /// The share itself.
    pub private_key_share: G2,
}

/// The public commitment to a validator's share.
#[derive(Clone, PartialEq, Eq, Debug)]
pub struct PublicKeyShare {
    /// The commitment in G1.
    pub public_key_share: G1,
}

/// A private key share blinded by a validator's blinding factor.
#[derive(Clone, PartialEq, Eq, Debug)]
pub struct BlindedKeyShare {
    /// The blinding factor's public image on the G2 generator.
    pub blinding_key: G2,
    /// The blinded share.
    pub blinded_key_share: G2,
}

impl PrivateKeyShare {
    /// Blind this share with the factor `b`.
    pub fn blind(&self, b: &Fr) -> (r: BlindedKeyShare)
        ensures
            r.blinding_key@ == g2_base_pow_of(b@),
            r.blinded_key_share@ == g2_mul_of(self.private_key_share@, b@),
    {
        BlindedKeyShare {
            blinding_key: g2_mul_generator(b),
            blinded_key_share: g2_mul(&self.private_key_share, b),
        }
    }
}

/// The public decryption context of one validator, fast variant.
#[derive(Clone, PartialEq, Eq, Debug)]
pub struct PublicDecryptionContextFast {
    /// The validator's domain point.
    pub domain: Fr,
    /// The commitment to the validator's share.
    pub public_key_share: PublicKeyShare,
    /// The validator's blinded share.
    pub blinded_key_share: BlindedKeyShare,
    /// The Lagrange factor of this point over the full domain at zero.
    pub lagrange_n_0: Fr,
    /// The negated G2 generator.
    pub h_inv: G2,
    /// The G2 generator.
    pub h: G2,
    /// The blinding factor's public image.
    pub validator_public_key: G2,
}

/// The public decryption context of one validator, simple variant.
#[derive(Clone, PartialEq, Eq, Debug)]
pub struct PublicDecryptionContextSimple {
    /// The validator's domain point.
    pub domain: Fr,
    /// The commitment to the validator's share.
    pub public_key_share: PublicKeyShare,
    /// The validator's blinded share.
    pub blinded_key_share: BlindedKeyShare,
    /// The G2 generator.
    pub h: G2,
    /// The blinding factor's public image.
    pub validator_public_key: G2,
}

/// The private decryption context of one validator, fast variant.
#[derive(Clone, PartialEq, Eq, Debug)]
pub struct PrivateDecryptionContextFast {
    /// The validator's position.
    pub index: usize,
    /// The fixed elements of this context.
    pub setup_params: SetupParams,
    /// The validator's private key share.
    pub private_key_share: PrivateKeyShare,
    /// Everyone's public contexts.
    pub public_decryption_contexts: Vec<PublicDecryptionContextFast>,
}

/// The private decryption context of one validator, simple variant.
#[derive(Clone, PartialEq, Eq, Debug)]
pub struct PrivateDecryptionContextSimple {
    /// The validator's position.
    pub index: usize,
    /// The fixed elements of this context.
    pub setup_params: SetupParams,
    /// The validator's private key share.
    pub private_key_share: PrivateKeyShare,
    /// The validator's blinding factor, used to tag decryption shares.
    pub validator_private_key: Fr,
    /// Everyone's public contexts.
    pub public_decryption_contexts: Vec<PublicDecryptionContextSimple>,
}

} // verus!
