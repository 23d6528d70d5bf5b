//! Publicly verifiable secret sharing transcripts.
//!
//! A dealer commits to a random polynomial `f` of degree `t - 1` by
//! publishing, for every validator position `i`, the commitment
//! `g · f(ωⁱ)` in G1 and the share `pk_i · f(ωⁱ)` in G2, where `ωⁱ` is
//! the validator's domain point and `pk_i` its public key.  Anyone can
//! check a transcript without interaction: the commitments must encode a
//! polynomial of degree at most `t - 1` (the high coefficients of their
//! inverse FFT vanish), and each share must pair consistently with its
//! commitment.  Transcripts add point-wise; the sum is checked the same
//! way.

use vstd::prelude::*;

use crate::curve::fr_fft;
use crate::curve::fr_fft_of;
use crate::curve::fr_random;
use crate::curve::frs_view;
use crate::curve::g1_add;
use crate::curve::g1_add_of;
use crate::curve::g1_ifft;
use crate::curve::g1_ifft_of;
use crate::curve::g1_mul;
use crate::curve::g1_mul_of;
use crate::curve::g1_identity;
use crate::curve::g1_zero_bytes;
use crate::curve::g1s_view;
use crate::curve::g2_add;
use crate::curve::g2_add_of;
use crate::curve::g2_mul;
use crate::curve::g2_mul_of;
use crate::curve::g2s_view;
use crate::curve::is_pow2;
use crate::curve::pairing;
use crate::curve::pairing_of;
use crate::curve::Fr;
use crate::curve::G1;
use crate::curve::G2;
use crate::dkg::PubliclyVerifiableDkg;
use crate::error::Error;
use crate::validator::Validator;

verus! {

/// The fixed generators a session works over.
#[derive(Clone, Debug)]
pub struct PubliclyVerifiableParams {
    /// The G1 generator, base of the commitments.
    pub g: G1,
    /// The G2 generator, base of the validator public keys.
    pub h: G2,
}

/// One dealer's verifiable sharing.
#[derive(Clone, PartialEq, Eq, Debug)]
pub struct PubliclyVerifiableSS {
    /// For each validator position, the commitment to the polynomial
    /// evaluation at that position's domain point.
    pub commitments: Vec<G1>,
    /// For each validator position, the share encrypted to that
    /// validator's public key.
    pub shares: Vec<G2>,
}

/// A dealer's transcript, before aggregation.
pub type Pvss = PubliclyVerifiableSS;

/// A point-wise sum of transcripts; checked the same way.
pub type AggregatedPvss = PubliclyVerifiableSS;

/// The public keys of a validator list, in order.
pub open spec fn pubkeys_of(vs: Seq<Validator>) -> Seq<Seq<u8>> {
    vs.map_values(|v: Validator| v.validator.public_key.point@)
}

/// The commitments to a vector of evaluations: each scaled onto `g`.
pub open spec fn evals_commit(g: Seq<u8>, evals: Seq<Seq<u8>>) -> Seq<Seq<u8>> {
    evals.map_values(|e: Seq<u8>| g1_mul_of(g, e))
}

/// The shares of a vector of evaluations: each scaled onto the
/// corresponding public key.
pub open spec fn evals_to_shares(pks: Seq<Seq<u8>>, evals: Seq<Seq<u8>>) -> Seq<Seq<u8>> {
    Seq::new(pks.len(), |i: int| g2_mul_of(pks[i], evals[i]))
}

/// Whether `p` is exactly the transcript a dealer derives from the
/// polynomial with the given coefficients over the size-`n` domain.
pub open spec fn is_transcript_of(
    p: PubliclyVerifiableSS,
    g: Seq<u8>,
    pks: Seq<Seq<u8>>,
    coeffs: Seq<Seq<u8>>,
    n: u64,
) -> bool {
    &&& g1s_view(p.commitments@) == evals_commit(g, fr_fft_of(coeffs, n))
    &&& g2s_view(p.shares@) == evals_to_shares(pks, fr_fft_of(coeffs, n))
}

/// The public validity of a transcript against a validator set and a
/// threshold: right lengths, commitments of degree below the threshold,
/// and every share pairing-consistent with its commitment.
pub open spec fn pvss_valid(
    g: Seq<u8>,
    pks: Seq<Seq<u8>>,
    p: PubliclyVerifiableSS,
    t: nat,
) -> bool {
    let n = pks.len();
    &&& p.commitments@.len() == n
    &&& p.shares@.len() == n
    &&& forall|i: int|
        t <= i < n ==> #[trigger] g1_ifft_of(g1s_view(p.commitments@))[i] == g1_zero_bytes()
    &&& forall|i: int|
        0 <= i < n ==> pairing_of(#[trigger] g1s_view(p.commitments@)[i], pks[i]) == pairing_of(
            g,
            g2s_view(p.shares@)[i],
        )
}

/// Build the transcript of the polynomial with the given coefficients:
/// evaluate it over the domain by FFT, then commit each evaluation to
/// `g` and encrypt it to each validator's public key.
pub fn transcript_from_coeffs(
    coeffs: &Vec<Fr>,
    g: &G1,
    validators: &Vec<Validator>,
    n: u32,
) -> (r: PubliclyVerifiableSS)
    requires
        is_pow2(n as nat),
        coeffs@.len() <= n,
        validators@.len() == n,
    ensures
        is_transcript_of(r, g@, pubkeys_of(validators@), frs_view(coeffs@), n as u64),
        r.commitments@.len() == n,
        r.shares@.len() == n,
{
    let evals = fr_fft(coeffs, n as u64);
    let mut commitments: Vec<G1> = Vec::new();
    let mut shares: Vec<G2> = Vec::new();
    let mut i: usize = 0;
    while i < n as usize
        invariant
            i <= n,
            evals@.len() == n,
            validators@.len() == n,
            frs_view(evals@) == fr_fft_of(frs_view(coeffs@), n as u64),
            commitments@.len() == i,
            shares@.len() == i,
            forall|j: int| 0 <= j < i ==> commitments@[j]@ == g1_mul_of(g@, evals@[j]@),
            forall|j: int|
                0 <= j < i ==> shares@[j]@ == g2_mul_of(
                    validators@[j].validator.public_key.point@,
                    evals@[j]@,
                ),
        decreases n - i,
    {
        commitments.push(g1_mul(g, &evals[i]));
        shares.push(g2_mul(&validators[i].validator.public_key.point, &evals[i]));
        i = i + 1;
    }
    let r = PubliclyVerifiableSS { commitments, shares };
    proof {
        let fs = fr_fft_of(frs_view(coeffs@), n as u64);
        assert forall|j: int| 0 <= j < n implies #[trigger] g1s_view(r.commitments@)[j]
            == evals_commit(g@, fs)[j] by {
            assert(frs_view(evals@)[j] == evals@[j]@);
        }
        assert(g1s_view(r.commitments@) =~= evals_commit(g@, fs));
        assert forall|j: int| 0 <= j < n implies #[trigger] g2s_view(r.shares@)[j]
            == evals_to_shares(pubkeys_of(validators@), fs)[j] by {
            assert(frs_view(evals@)[j] == evals@[j]@);
            assert(pubkeys_of(validators@)[j] == validators@[j].validator.public_key.point@);
        }
        assert(g2s_view(r.shares@) =~= evals_to_shares(pubkeys_of(validators@), fs));
    }
    r
}

impl PubliclyVerifiableSS {
    /// Deal a fresh transcript inside the given session: a random
    /// polynomial of degree `t - 1` whose constant coefficient is the
    /// given secret.
    pub fn new(
        s: &Fr,
        dkg: &PubliclyVerifiableDkg,
        rng: &mut rand::rngs::StdRng,
    ) -> (r: Result<PubliclyVerifiableSS, Error>)
        requires
            dkg.wf(),
        ensures
            r is Ok,
            r matches Ok(p) ==> {
                &&& p.commitments@.len() == dkg.params.shares_num
                &&& p.shares@.len() == dkg.params.shares_num
                &&& exists|coeffs: Seq<Seq<u8>>|
                    {
                        &&& coeffs.len() == dkg.params.security_threshold
                        &&& coeffs[0] == s@
                        &&& is_transcript_of(
                            p,
                            dkg.pvss_params.g@,
                            pubkeys_of(dkg.validators@),
                            coeffs,
                            dkg.params.shares_num as u64,
                        )
                    }
            },
    {
        let t = dkg.params.security_threshold;
        let mut coeffs: Vec<Fr> = Vec::new();
        coeffs.push(s.dup());
        let mut i: u32 = 1;
        while i < t
            invariant
                1 <= i <= t,
                coeffs@.len() == i,
                coeffs@[0]@ == s@,
            decreases t - i,
        {
            coeffs.push(fr_random(rng));
            i = i + 1;
        }
        let p = transcript_from_coeffs(
            &coeffs,
            &dkg.pvss_params.g,
            &dkg.validators,
            dkg.params.shares_num,
        );
        proof {
            let w = frs_view(coeffs@);
            assert(w.len() == t);
            assert(w[0] == s@);
        }
        Ok(p)
    }

    /// Check this transcript publicly against the session's validator
    /// set: degree bound and share consistency.
    pub fn verify_optimistic(&self, dkg: &PubliclyVerifiableDkg) -> (r: bool)
        requires
            dkg.wf(),
        ensures
            r == pvss_valid(
                dkg.pvss_params.g@,
                pubkeys_of(dkg.validators@),
                *self,
                dkg.params.security_threshold as nat,
            ),
    {
        let n = dkg.params.shares_num as usize;
        let t = dkg.params.security_threshold as usize;
        let ghost pks = pubkeys_of(dkg.validators@);
        assert(pks.len() == n);
        if self.commitments.len() != n || self.shares.len() != n {
            return false;
        }
        let poly = g1_ifft(&self.commitments);
        let zero = g1_identity();
        let mut i: usize = t;
        while i < n
            invariant
                t <= i <= n,
                n == dkg.params.shares_num,
                t == dkg.params.security_threshold,
                pks == pubkeys_of(dkg.validators@),
                pks.len() == n,
                self.shares@.len() == n,
                poly@.len() == n,
                self.commitments@.len() == n,
                g1s_view(poly@) == g1_ifft_of(g1s_view(self.commitments@)),
                zero@ == g1_zero_bytes(),
                forall|j: int|
                    t <= j < i ==> #[trigger] g1_ifft_of(g1s_view(self.commitments@))[j]
                        == g1_zero_bytes(),
            decreases n - i,
        {
            if !poly[i].equals(&zero) {
                proof {
                    assert(g1s_view(poly@)[i as int] == poly@[i as int]@);
                }
                return false;
            }
            proof {
                assert(g1s_view(poly@)[i as int] == poly@[i as int]@);
            }
            i = i + 1;
        }
        let mut i: usize = 0;
        while i < n
            invariant
                0 <= i <= n,
                n == dkg.params.shares_num,
                t == dkg.params.security_threshold,
                dkg.wf(),
                self.commitments@.len() == n,
                self.shares@.len() == n,
                pks == pubkeys_of(dkg.validators@),
                pks.len() == n,
                forall|j: int|
                    t <= j < n ==> #[trigger] g1_ifft_of(g1s_view(self.commitments@))[j]
                        == g1_zero_bytes(),
                forall|j: int|
                    0 <= j < i ==> pairing_of(#[trigger] g1s_view(self.commitments@)[j], pks[j])
                        == pairing_of(dkg.pvss_params.g@, g2s_view(self.shares@)[j]),
            decreases n - i,
        {
            let lhs = pairing(&self.commitments[i], &dkg.validators[i].validator.public_key.point);
            let rhs = pairing(&dkg.pvss_params.g, &self.shares[i]);
            proof {
                assert(pks[i as int] == dkg.validators@[i as int].validator.public_key.point@);
                assert(g1s_view(self.commitments@)[i as int] == self.commitments@[i as int]@);
                assert(g2s_view(self.shares@)[i as int] == self.shares@[i as int]@);
            }
            if !lhs.equals(&rhs) {
                return false;
            }
            i = i + 1;
        }
        true
    }

    /// Check an aggregation publicly, and return how many transcripts
    /// this session has accumulated locally.
    pub fn verify_aggregation(&self, dkg: &PubliclyVerifiableDkg) -> (r: Result<u32, Error>)
        requires
            dkg.wf(),
        ensures
            r == (if pvss_valid(
                dkg.pvss_params.g@,
                pubkeys_of(dkg.validators@),
                *self,
                dkg.params.security_threshold as nat,
            ) {
                Result::<u32, Error>::Ok(
                    dealt_count(dkg.vss@, dkg.vss@.len() as int) as u32,
                )
            } else {
                Result::<u32, Error>::Err(Error::InvalidTranscript)
            }),
    {
        if self.verify_optimistic(dkg) {
            Ok(count_dealt(&dkg.vss))
        } else {
            Err(Error::InvalidTranscript)
        }
    }
}

impl PubliclyVerifiableSS {
    /// Whether this aggregation passes public verification against the
    /// session.
    pub fn validate(&self, dkg: &PubliclyVerifiableDkg) -> (r: bool)
        requires
            dkg.wf(),
        ensures
            r == pvss_valid(
                dkg.pvss_params.g@,
                pubkeys_of(dkg.validators@),
                *self,
                dkg.params.security_threshold as nat,
            ),
    {
        self.verify_optimistic(dkg)
    }

    /// Produce this session owner's decryption share from an
    /// aggregation: the owner's slot is unblinded with the session
    /// keypair's secret `b`, paired with the ciphertext's commitment,
    /// and tagged with the checksum `U · b⁻¹`, the form whose two
    /// post-hoc pairing checks are publicly computable.  Fails exactly
    /// on an invalid ciphertext, and otherwise exactly on a session
    /// secret of zero, which cannot be inverted.
    pub fn create_decryption_share(
        &self,
        dkg: &PubliclyVerifiableDkg,
        ciphertext: &crate::ciphertext::Ciphertext,
        aad: &[u8],
        validator_keypair: &crate::keypair::Keypair,
    ) -> (r: Result<
        crate::decryption::DecryptionShareSimple,
        crate::error::ThresholdEncryptionError,
    >)
        requires
            dkg.wf(),
            self.shares@.len() == dkg.params.shares_num,
        ensures
            !crate::ciphertext::ciphertext_valid_wrt(
                ciphertext.commitment@,
                ciphertext.auth_tag@,
                ciphertext.ciphertext@,
                aad@,
                crate::curve::g1_neg_of(dkg.pvss_params.g@),
            ) <==> r == Err::<
                crate::decryption::DecryptionShareSimple,
                crate::error::ThresholdEncryptionError,
            >(crate::error::ThresholdEncryptionError::CiphertextVerificationFailed),
            (crate::ciphertext::ciphertext_valid_wrt(
                ciphertext.commitment@,
                ciphertext.auth_tag@,
                ciphertext.ciphertext@,
                aad@,
                crate::curve::g1_neg_of(dkg.pvss_params.g@),
            ) && crate::curve::fr_is_zero_of(validator_keypair.decryption_key@)) <==> r == Err::<
                crate::decryption::DecryptionShareSimple,
                crate::error::ThresholdEncryptionError,
            >(crate::error::ThresholdEncryptionError::DecryptionShareVerificationFailed),
            r matches Ok(d) ==> {
                &&& d.decrypter_index == dkg.me
                &&& d.decryption_share@ == pairing_of(
                    ciphertext.commitment@,
                    g2_mul_of(
                        self.shares@[dkg.me as int]@,
                        crate::curve::fr_inverse_of(validator_keypair.decryption_key@),
                    ),
                )
                &&& d.validator_checksum@ == crate::curve::g1_mul_of(
                    ciphertext.commitment@,
                    crate::curve::fr_inverse_of(validator_keypair.decryption_key@),
                )
            },
            r matches Err(e) ==> e is CiphertextVerificationFailed || e
                is DecryptionShareVerificationFailed,
    {
        let g_inv = dkg.g1_inv();
        match crate::ciphertext::check_ciphertext_validity(ciphertext, aad, &g_inv) {
            Ok(_) => {},
            Err(_) => {
                return Err(crate::error::ThresholdEncryptionError::CiphertextVerificationFailed);
            },
        }
        let b_inv = match crate::curve::fr_inverse(&validator_keypair.decryption_key) {
            Some(v) => v,
            None => {
                return Err(
                    crate::error::ThresholdEncryptionError::DecryptionShareVerificationFailed,
                );
            },
        };
        let private_key_share = crate::context::PrivateKeyShare {
            private_key_share: g2_mul(&self.shares[dkg.me], &b_inv),
        };
        crate::decryption::DecryptionShareSimple::create(
            dkg.me,
            &validator_keypair.decryption_key,
            &private_key_share,
            ciphertext,
            aad,
            &g_inv,
        )
    }
}

/// How many of the first `k` slots hold a transcript.
pub open spec fn dealt_count(vss: Seq<Option<PubliclyVerifiableSS>>, k: int) -> nat
    decreases k,
{
    if k <= 0 {
        0
    } else {
        dealt_count(vss, k - 1) + if vss[k - 1] is Some {
            1nat
        } else {
            0nat
        }
    }
}

/// Count the filled slots of a session's transcript table.
pub fn count_dealt(vss: &Vec<Option<PubliclyVerifiableSS>>) -> (r: u32)
    requires
        vss@.len() <= u32::MAX,
    ensures
        r == dealt_count(vss@, vss@.len() as int),
{
    let mut count: u32 = 0;
    let mut i: usize = 0;
    while i < vss.len()
        invariant
            i <= vss@.len(),
            vss@.len() <= u32::MAX,
            count == dealt_count(vss@, i as int),
        decreases vss@.len() - i,
    {
        proof {
            assert(dealt_count(vss@, i as int) <= i as int) by {
                lemma_dealt_count_bound(vss@, i as int);
            }
        }
        if vss[i].is_some() {
            count = count + 1;
        }
        i = i + 1;
    }
    count
}

/// The count of filled slots among the first `k` is at most `k`.
pub proof fn lemma_dealt_count_bound(vss: Seq<Option<PubliclyVerifiableSS>>, k: int)
    requires
        k >= 0,
    ensures
        dealt_count(vss, k) <= k,
    decreases k,
{
    if k > 0 {
        lemma_dealt_count_bound(vss, k - 1);
    }
}

/// The point-wise G1 sums of two equally long vectors of encodings.
pub open spec fn pointwise_g1_sum(a: Seq<Seq<u8>>, b: Seq<Seq<u8>>) -> Seq<Seq<u8>> {
    Seq::new(a.len(), |i: int| g1_add_of(a[i], b[i]))
}

/// The point-wise G2 sums of two equally long vectors of encodings.
pub open spec fn pointwise_g2_sum(a: Seq<Seq<u8>>, b: Seq<Seq<u8>>) -> Seq<Seq<u8>> {
    Seq::new(a.len(), |i: int| g2_add_of(a[i], b[i]))
}

/// The commitments of the point-wise sum of the transcripts in the first
/// `k` slots, folded from the all-identity vector in slot order.
pub open spec fn agg_commitments_upto(
    vss: Seq<Option<PubliclyVerifiableSS>>,
    n: nat,
    k: int,
) -> Seq<Seq<u8>>
    decreases k,
{
    if k <= 0 {
        Seq::new(n, |i: int| g1_zero_bytes())
    } else {
        match vss[k - 1] {
            Some(p) => pointwise_g1_sum(
                agg_commitments_upto(vss, n, k - 1),
                g1s_view(p.commitments@),
            ),
            None => agg_commitments_upto(vss, n, k - 1),
        }
    }
}

/// The shares of the point-wise sum of the transcripts in the first `k`
/// slots, folded in slot order from the all-identity vector.
pub open spec fn agg_shares_upto(
    vss: Seq<Option<PubliclyVerifiableSS>>,
    n: nat,
    k: int,
) -> Seq<Seq<u8>>
    decreases k,
{
    if k <= 0 {
        Seq::new(n, |i: int| crate::curve::g2_base_pow_of(crate::curve::fr_of_u64(0)))
    } else {
        match vss[k - 1] {
            Some(p) => pointwise_g2_sum(agg_shares_upto(vss, n, k - 1), g2s_view(p.shares@)),
            None => agg_shares_upto(vss, n, k - 1),
        }
    }
}

/// The joint public key a transcript table derives: the constant
/// coefficient of the aggregated commitments, read off by inverse FFT.
pub open spec fn final_key_of(vss: Seq<Option<PubliclyVerifiableSS>>, n: nat) -> Seq<u8> {
    g1_ifft_of(agg_commitments_upto(vss, n, n as int))[0]
}

/// Point-wise G1 sum of two equally long vectors.
fn g1_vec_sum(a: &Vec<G1>, b: &Vec<G1>) -> (r: Vec<G1>)
    requires
        a@.len() == b@.len(),
    ensures
        r@.len() == a@.len(),
        g1s_view(r@) == pointwise_g1_sum(g1s_view(a@), g1s_view(b@)),
{
    let mut out: Vec<G1> = Vec::new();
    let mut i: usize = 0;
    while i < a.len()
        invariant
            i <= a@.len(),
            a@.len() == b@.len(),
            out@.len() == i,
            forall|j: int| 0 <= j < i ==> out@[j]@ == g1_add_of(a@[j]@, b@[j]@),
        decreases a@.len() - i,
    {
        out.push(g1_add(&a[i], &b[i]));
        i = i + 1;
    }
    proof {
        assert forall|j: int| 0 <= j < a@.len() implies #[trigger] g1s_view(out@)[j]
            == pointwise_g1_sum(g1s_view(a@), g1s_view(b@))[j] by {
            assert(g1s_view(out@)[j] == out@[j]@);
            assert(g1s_view(a@)[j] == a@[j]@);
            assert(g1s_view(b@)[j] == b@[j]@);
        }
        assert(g1s_view(out@) =~= pointwise_g1_sum(g1s_view(a@), g1s_view(b@)));
    }
    out
}

/// Point-wise G2 sum of two equally long vectors.
fn g2_vec_sum(a: &Vec<G2>, b: &Vec<G2>) -> (r: Vec<G2>)
    requires
        a@.len() == b@.len(),
    ensures
        r@.len() == a@.len(),
        g2s_view(r@) == pointwise_g2_sum(g2s_view(a@), g2s_view(b@)),
{
    let mut out: Vec<G2> = Vec::new();
    let mut i: usize = 0;
    while i < a.len()
        invariant
            i <= a@.len(),
            a@.len() == b@.len(),
            out@.len() == i,
            forall|j: int| 0 <= j < i ==> out@[j]@ == g2_add_of(a@[j]@, b@[j]@),
        decreases a@.len() - i,
    {
        out.push(g2_add(&a[i], &b[i]));
        i = i + 1;
    }
    proof {
        assert forall|j: int| 0 <= j < a@.len() implies #[trigger] g2s_view(out@)[j]
            == pointwise_g2_sum(g2s_view(a@), g2s_view(b@))[j] by {
            assert(g2s_view(out@)[j] == out@[j]@);
            assert(g2s_view(a@)[j] == a@[j]@);
            assert(g2s_view(b@)[j] == b@[j]@);
        }
        assert(g2s_view(out@) =~= pointwise_g2_sum(g2s_view(a@), g2s_view(b@)));
    }
    out
}

/// A vector of `n` G1 identities.
fn g1_zero_vec(n: usize) -> (r: Vec<G1>)
    ensures
        r@.len() == n,
        g1s_view(r@) == Seq::new(n as nat, |i: int| g1_zero_bytes()),
{
    let mut out: Vec<G1> = Vec::new();
    let mut i: usize = 0;
    while i < n
        invariant
            i <= n,
            out@.len() == i,
            forall|j: int| 0 <= j < i ==> out@[j]@ == g1_zero_bytes(),
        decreases n - i,
    {
        out.push(g1_identity());
        i = i + 1;
    }
    proof {
        assert(g1s_view(out@) =~= Seq::new(n as nat, |i: int| g1_zero_bytes()));
    }
    out
}

/// A vector of `n` G2 identities.
fn g2_zero_vec(n: usize) -> (r: Vec<G2>)
    ensures
        r@.len() == n,
        g2s_view(r@) == Seq::new(
            n as nat,
            |i: int| crate::curve::g2_base_pow_of(crate::curve::fr_of_u64(0)),
        ),
{
    let zero = crate::curve::fr_zero();
    let mut out: Vec<G2> = Vec::new();
    let mut i: usize = 0;
    while i < n
        invariant
            i <= n,
            zero@ == crate::curve::fr_of_u64(0),
            out@.len() == i,
            forall|j: int|
                0 <= j < i ==> out@[j]@ == crate::curve::g2_base_pow_of(crate::curve::fr_of_u64(0)),
        decreases n - i,
    {
        out.push(crate::curve::g2_mul_generator(&zero));
        i = i + 1;
    }
    proof {
        assert(g2s_view(out@) =~= Seq::new(
            n as nat,
            |i: int| crate::curve::g2_base_pow_of(crate::curve::fr_of_u64(0)),
        ));
    }
    out
}

/// Aggregate every transcript the session has accumulated into one
/// point-wise sum, in slot order.
pub fn aggregate(dkg: &PubliclyVerifiableDkg) -> (r: AggregatedPvss)
    requires
        dkg.wf(),
    ensures
        r.commitments@.len() == dkg.params.shares_num,
        r.shares@.len() == dkg.params.shares_num,
        g1s_view(r.commitments@) == agg_commitments_upto(
            dkg.vss@,
            dkg.params.shares_num as nat,
            dkg.vss@.len() as int,
        ),
        g2s_view(r.shares@) == agg_shares_upto(
            dkg.vss@,
            dkg.params.shares_num as nat,
            dkg.vss@.len() as int,
        ),
{
    let n = dkg.vss.len();
    proof {
        assert(n == dkg.params.shares_num);
    }
    let mut commitments = g1_zero_vec(n);
    let mut shares = g2_zero_vec(n);
    let mut k: usize = 0;
    while k < dkg.vss.len()
        invariant
            k <= dkg.vss@.len(),
            dkg.wf(),
            n == dkg.params.shares_num,
            commitments@.len() == n,
            shares@.len() == n,
            g1s_view(commitments@) == agg_commitments_upto(dkg.vss@, n as nat, k as int),
            g2s_view(shares@) == agg_shares_upto(dkg.vss@, n as nat, k as int),
        decreases dkg.vss@.len() - k,
    {
        match &dkg.vss[k] {
            Some(p) => {
                commitments = g1_vec_sum(&commitments, &p.commitments);
                shares = g2_vec_sum(&shares, &p.shares);
            },
            None => {},
        }
        k = k + 1;
    }
    AggregatedPvss { commitments, shares }
}

} // verus!
