//! Validator-local keypairs: a scalar secret and its G2 public key.

use vstd::prelude::*;

use crate::curve::fr_random;
use crate::curve::g2_mul_generator;
use crate::curve::g2_base_pow_of;
use crate::curve::Fr;
use crate::curve::G2;

verus! {

/// A validator's public key: the G2 base point times its secret scalar.
#[derive(Clone, PartialEq, Eq, Debug)]
pub struct PublicKey {
    /// The public G2 point.
    pub point: G2,
}

impl PublicKey {
    /// A fresh public key holding the same point.
    pub fn dup(&self) -> (r: PublicKey)
        ensures
            r.point@ == self.point@,
    {
        PublicKey { point: self.point.dup() }
    }

    /// Whether this public key equals the other.
    pub fn equals(&self, other: &PublicKey) -> (r: bool)
        ensures
            r == (self.point@ == other.point@),
    {
        self.point.equals(&other.point)
    }
}

/// A validator's session keypair.
#[derive(Clone, PartialEq, Eq, Debug)]
pub struct Keypair {
    /// The secret scalar.
    pub decryption_key: Fr,
}

impl Keypair {
    /// Draw a fresh keypair from the given generator.  Nothing is
    /// promised of the secret's value, only that it is a canonical
    /// scalar encoding.
    pub fn new(rng: &mut rand::rngs::StdRng) -> (r: Keypair)
        ensures
            crate::curve::fr_decodes(r.decryption_key@),
    {
        Keypair { decryption_key: fr_random(rng) }
    }

    /// The public key of this keypair.
    pub fn public(&self) -> (r: PublicKey)
        ensures
            r.point@ == g2_base_pow_of(self.decryption_key@),
    {
        PublicKey { point: g2_mul_generator(&self.decryption_key) }
    }

    /// A fresh keypair holding the same secret.
    pub fn dup(&self) -> (r: Keypair)
        ensures
            r.decryption_key@ == self.decryption_key@,
    {
        Keypair { decryption_key: self.decryption_key.dup() }
    }
}

} // verus!
