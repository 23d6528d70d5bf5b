//! Per-validator decryption shares, with their publicly verifiable
//! checksum tag.
//!
//! In the simple variant a validator publishes `D = e(U, Z)` (a
//! target-group element, already unblinded) together with the checksum
//! `K = U · b⁻¹` for its blinding factor `b`.  Anyone holding the public
//! context can check post hoc that `e(K, h · b) = e(U, h)` — the
//! checksum really carries `b⁻¹` — and that `e(K, Z · b) = D` — the
//! share really is the pairing of `U` with this validator's key share.
//! In the fast variant the share is `U · b⁻¹` itself and the combiner
//! pairs it against the blinded key shares.

use vstd::prelude::*;

use crate::ciphertext::check_ciphertext_validity;
use crate::ciphertext::ciphertext_valid_wrt;
use crate::ciphertext::Ciphertext;
use crate::context::PrivateDecryptionContextFast;
use crate::context::PrivateDecryptionContextSimple;
use crate::context::PrivateKeyShare;
use crate::context::PublicDecryptionContextSimple;
use crate::curve::fr_inverse;
use crate::curve::fr_inverse_of;
use crate::curve::fr_is_zero_of;
use crate::curve::g1_mul;
use crate::curve::g1_mul_of;
use crate::curve::gt_pow;
use crate::curve::gt_pow_of;
use crate::curve::pairing;
use crate::curve::pairing_of;
use crate::curve::Fr;
use crate::curve::G1;
use crate::curve::G2;
use crate::curve::Gt;
use crate::error::ThresholdEncryptionError;

verus! {

/// A fast-variant decryption share: the KEM commitment unblinded by
/// the validator's factor.
#[derive(Clone, PartialEq, Eq, Debug)]
pub struct DecryptionShareFast {
    /// The position of the validator that produced this share.
    pub decrypter_index: usize,
    /// `U · b⁻¹`.
    pub decryption_share: G1,
}

/// A simple-variant decryption share with its verifiable checksum.
#[derive(Clone, PartialEq, Eq, Debug)]
pub struct DecryptionShareSimple {
    /// The position of the validator that produced this share.
    pub decrypter_index: usize,
    /// `e(U, Z)`, the validator's contribution to the shared secret.
    pub decryption_share: Gt,
    /// `U · b⁻¹`, the publicly checkable tag.
    pub validator_checksum: G1,
}

impl DecryptionShareSimple {
    /// Create a share for a valid ciphertext: the pairing of the KEM
    /// commitment with the private key share, tagged with the
    /// checksum.  Fails on an invalid ciphertext, and on a zero
    /// decryption key, which cannot be inverted into a checksum.
    pub fn create(
        validator_index: usize,
        validator_decryption_key: &Fr,
        private_key_share: &PrivateKeyShare,
        ciphertext: &Ciphertext,
        aad: &[u8],
        g_inv: &G1,
    ) -> (r: Result<DecryptionShareSimple, ThresholdEncryptionError>)
        ensures
            !ciphertext_valid_wrt(
                ciphertext.commitment@,
                ciphertext.auth_tag@,
                ciphertext.ciphertext@,
                aad@,
                g_inv@,
            ) <==> r == Err::<DecryptionShareSimple, ThresholdEncryptionError>(
                ThresholdEncryptionError::CiphertextVerificationFailed,
            ),
            (ciphertext_valid_wrt(
                ciphertext.commitment@,
                ciphertext.auth_tag@,
                ciphertext.ciphertext@,
                aad@,
                g_inv@,
            ) && fr_is_zero_of(validator_decryption_key@)) <==> r == Err::<
                DecryptionShareSimple,
                ThresholdEncryptionError,
            >(ThresholdEncryptionError::DecryptionShareVerificationFailed),
            r matches Err(e) ==> e is CiphertextVerificationFailed || e
                is DecryptionShareVerificationFailed,
            r matches Ok(d) ==> {
                &&& d.decrypter_index == validator_index
                &&& d.decryption_share@ == pairing_of(
                    ciphertext.commitment@,
                    private_key_share.private_key_share@,
                )
                &&& d.validator_checksum@ == g1_mul_of(
                    ciphertext.commitment@,
                    fr_inverse_of(validator_decryption_key@),
                )
            },
    {
        match check_ciphertext_validity(ciphertext, aad, g_inv) {
            Ok(_) => {},
            Err(_) => {
                return Err(ThresholdEncryptionError::CiphertextVerificationFailed);
            },
        }
        let b_inv = match fr_inverse(validator_decryption_key) {
            Some(v) => v,
            None => {
                return Err(ThresholdEncryptionError::DecryptionShareVerificationFailed);
            },
        };
        let decryption_share = pairing(&ciphertext.commitment, &private_key_share.private_key_share);
        let validator_checksum = g1_mul(&ciphertext.commitment, &b_inv);
        Ok(DecryptionShareSimple { decrypter_index: validator_index, decryption_share, validator_checksum })
    }

    /// Check this share post hoc against the validator's public data:
    /// the checksum carries the blinding inverse, and the share pairs
    /// consistently with the blinded key share.
    pub fn verify(
        &self,
        share_aggregate: &G2,
        validator_public_key: &G2,
        h: &G2,
        ciphertext: &Ciphertext,
    ) -> (r: bool)
        ensures
            r == (pairing_of(self.validator_checksum@, validator_public_key@) == pairing_of(
                ciphertext.commitment@,
                h@,
            ) && pairing_of(self.validator_checksum@, share_aggregate@)
                == self.decryption_share@),
    {
        let checksum_ok = pairing(&self.validator_checksum, validator_public_key).equals(
            &pairing(&ciphertext.commitment, h),
        );
        let share_ok = pairing(&self.validator_checksum, share_aggregate).equals(
            &self.decryption_share,
        );
        checksum_ok && share_ok
    }
}

/// Whether every simple share passes its post-hoc check against its
/// validator's public context.
pub open spec fn simple_shares_valid(
    ctxs: Seq<PublicDecryptionContextSimple>,
    u: Seq<u8>,
    ds: Seq<DecryptionShareSimple>,
) -> bool {
    forall|i: int|
        0 <= i < ds.len() ==> {
            let c = ctxs[(#[trigger] ds[i]).decrypter_index as int];
            &&& pairing_of(ds[i].validator_checksum@, c.validator_public_key@) == pairing_of(
                u,
                c.h@,
            )
            &&& pairing_of(ds[i].validator_checksum@, c.blinded_key_share.blinded_key_share@)
                == ds[i].decryption_share@
        }
}

/// Verify a batch of simple decryption shares against their public
/// contexts; false as soon as one fails or names an unknown position.
pub fn verify_decryption_shares_simple(
    pub_contexts: &Vec<PublicDecryptionContextSimple>,
    ciphertext: &Ciphertext,
    decryption_shares: &Vec<DecryptionShareSimple>,
) -> (r: bool)
    ensures
        r == ((forall|i: int|
            0 <= i < decryption_shares@.len() ==> (#[trigger] decryption_shares@[i].decrypter_index)
                < pub_contexts@.len()) && simple_shares_valid(
            pub_contexts@,
            ciphertext.commitment@,
            decryption_shares@,
        )),
{
    let n = decryption_shares.len();
    let mut i: usize = 0;
    while i < n
        invariant
            i <= n,
            n == decryption_shares@.len(),
            forall|m: int|
                0 <= m < i ==> (#[trigger] decryption_shares@[m].decrypter_index)
                    < pub_contexts@.len(),
            forall|m: int|
                0 <= m < i ==> {
                    let c = pub_contexts@[(#[trigger] decryption_shares@[m]).decrypter_index as int];
                    &&& pairing_of(
                        decryption_shares@[m].validator_checksum@,
                        c.validator_public_key@,
                    ) == pairing_of(ciphertext.commitment@, c.h@)
                    &&& pairing_of(
                        decryption_shares@[m].validator_checksum@,
                        c.blinded_key_share.blinded_key_share@,
                    ) == decryption_shares@[m].decryption_share@
                },
        decreases n - i,
    {
        let idx = decryption_shares[i].decrypter_index;
        if idx >= pub_contexts.len() {
            return false;
        }
        let ctx = &pub_contexts[idx];
        if !decryption_shares[i].verify(
            &ctx.blinded_key_share.blinded_key_share,
            &ctx.validator_public_key,
            &ctx.h,
            ciphertext,
        ) {
            return false;
        }
        i = i + 1;
    }
    true
}

impl PrivateDecryptionContextSimple {
    /// Create this validator's decryption share for a ciphertext.
    pub fn create_share(&self, ciphertext: &Ciphertext, aad: &[u8]) -> (r: Result<
        DecryptionShareSimple,
        ThresholdEncryptionError,
    >)
        ensures
            (r is Ok) == ciphertext_valid_wrt(
                ciphertext.commitment@,
                ciphertext.auth_tag@,
                ciphertext.ciphertext@,
                aad@,
                self.setup_params.g_inv@,
            ),
            r matches Err(e) ==> e is CiphertextVerificationFailed,
            r matches Ok(d) ==> {
                &&& d.decrypter_index == self.index
                &&& d.decryption_share@ == pairing_of(
                    ciphertext.commitment@,
                    self.private_key_share.private_key_share@,
                )
                &&& d.validator_checksum@ == g1_mul_of(
                    ciphertext.commitment@,
                    self.setup_params.b_inv@,
                )
            },
    {
        match check_ciphertext_validity(ciphertext, aad, &self.setup_params.g_inv) {
            Ok(_) => {},
            Err(_) => {
                return Err(ThresholdEncryptionError::CiphertextVerificationFailed);
            },
        }
        let decryption_share = pairing(
            &ciphertext.commitment,
            &self.private_key_share.private_key_share,
        );
        let validator_checksum = g1_mul(&ciphertext.commitment, &self.setup_params.b_inv);
        Ok(
            DecryptionShareSimple {
                decrypter_index: self.index,
                decryption_share,
                validator_checksum,
            },
        )
    }

    /// Create this validator's decryption share already raised to the
    /// externally supplied Lagrange coefficient; no validity check is
    /// made, as no authenticated data is at hand.
    pub fn create_share_precomputed(&self, ciphertext: &Ciphertext, lagrange_coeff: &Fr) -> (r:
        DecryptionShareSimple)
        ensures
            r.decrypter_index == self.index,
            r.decryption_share@ == gt_pow_of(
                pairing_of(ciphertext.commitment@, self.private_key_share.private_key_share@),
                lagrange_coeff@,
            ),
            r.validator_checksum@ == g1_mul_of(ciphertext.commitment@, self.setup_params.b_inv@),
    {
        let base = pairing(&ciphertext.commitment, &self.private_key_share.private_key_share);
        let decryption_share = gt_pow(&base, lagrange_coeff);
        let validator_checksum = g1_mul(&ciphertext.commitment, &self.setup_params.b_inv);
        DecryptionShareSimple {
            decrypter_index: self.index,
            decryption_share,
            validator_checksum,
        }
    }
}

impl PrivateDecryptionContextFast {
    /// Create this validator's fast decryption share: the KEM
    /// commitment unblinded with the inverse blinding factor.
    pub fn create_share(&self, ciphertext: &Ciphertext, aad: &[u8], g_inv: &G1) -> (r: Result<
        DecryptionShareFast,
        ThresholdEncryptionError,
    >)
        ensures
            (r is Ok) == ciphertext_valid_wrt(
                ciphertext.commitment@,
                ciphertext.auth_tag@,
                ciphertext.ciphertext@,
                aad@,
                g_inv@,
            ),
            r matches Err(e) ==> e is CiphertextVerificationFailed,
            r matches Ok(d) ==> {
                &&& d.decrypter_index == self.index
                &&& d.decryption_share@ == g1_mul_of(
                    ciphertext.commitment@,
                    self.setup_params.b_inv@,
                )
            },
    {
        match check_ciphertext_validity(ciphertext, aad, g_inv) {
            Ok(_) => {},
            Err(_) => {
                return Err(ThresholdEncryptionError::CiphertextVerificationFailed);
            },
        }
        let decryption_share = g1_mul(&ciphertext.commitment, &self.setup_params.b_inv);
        Ok(DecryptionShareFast { decrypter_index: self.index, decryption_share })
    }
}

} // verus!
