//! Validator identities.  A validator is known by an opaque address and
//! a G2 public key; the ordered validator list assigns each a position,
//! and the position selects the validator's domain point.

use vstd::prelude::*;

use crate::keypair::PublicKey;

verus! {

/// An identity as published to the cohort.
#[derive(Clone, PartialEq, Eq, Debug)]
pub struct ExternalValidator {
    /// The established address of the validator.
    pub address: String,
    /// The public key of the validator.
    pub public_key: PublicKey,
}

impl ExternalValidator {
    /// Whether this identity matches the other, by address and key.
    pub fn matches(&self, other: &ExternalValidator) -> (r: bool)
        ensures
            r == (self.address@ == other.address@
                && self.public_key.point@ == other.public_key.point@),
    {
        self.address.eq(&other.address) && self.public_key.equals(&other.public_key)
    }

    /// A fresh copy of this identity.
    pub fn dup(&self) -> (r: ExternalValidator)
        ensures
            r.address@ == self.address@,
            r.public_key.point@ == self.public_key.point@,
    {
        ExternalValidator { address: self.address.clone(), public_key: self.public_key.dup() }
    }
}

/// A validator together with its position in the ordered list.
#[derive(Clone, PartialEq, Eq, Debug)]
pub struct Validator {
    /// The identity.
    pub validator: ExternalValidator,
    /// The position in the validator list.
    pub share_index: usize,
}

/// Attach to each identity its position in the list.
pub fn make_validators(validators: &Vec<ExternalValidator>) -> (r: Vec<Validator>)
    ensures
        r@.len() == validators@.len(),
        forall|i: int| 0 <= i < r@.len() ==> {
            &&& r@[i].share_index == i
            &&& r@[i].validator.address@ == validators@[i].address@
            &&& r@[i].validator.public_key.point@ == validators@[i].public_key.point@
        },
{
    let mut out: Vec<Validator> = Vec::new();
    let mut i: usize = 0;
    while i < validators.len()
        invariant
            i <= validators@.len(),
            out@.len() == i,
            forall|j: int| 0 <= j < i ==> {
                &&& out@[j].share_index == j
                &&& out@[j].validator.address@ == validators@[j].address@
                &&& out@[j].validator.public_key.point@ == validators@[j].public_key.point@
            },
        decreases validators@.len() - i,
    {
        out.push(Validator { validator: validators[i].dup(), share_index: i });
        i = i + 1;
    }
    out
}

} // verus!
