//! Dealer-based setup of the threshold decryption engine: a trusted
//! dealer samples the sharing polynomial, evaluates it over the
//! radix-2 domain, and hands every validator its private context and
//! the shared public contexts.
//!
//! The joint public key is `g · f(0)` and the joint private key
//! `h · f(0)`; validator `i` holds the share `h · f(ωⁱ)`, blinded
//! copies of which are published together with the commitments
//! `g · f(ωⁱ)`.

use vstd::prelude::*;

use crate::context::BlindedKeyShare;
use crate::context::PrivateDecryptionContextFast;
use crate::context::PrivateDecryptionContextSimple;
use crate::context::PrivateKeyShare;
use crate::context::PublicDecryptionContextFast;
use crate::context::PublicDecryptionContextSimple;
use crate::context::PublicKeyShare;
use crate::context::SetupParams;
use crate::curve::domain_generator;
use crate::curve::domain_generator_of;
use crate::curve::fr_fft;
use crate::curve::fr_fft_of;
use crate::curve::fr_inverse;
use crate::curve::fr_inverse_of;
use crate::curve::fr_is_zero_of;
use crate::curve::fr_mul;
use crate::curve::fr_one;
use crate::curve::fr_random;
use crate::curve::frs_view;
use crate::curve::g1_generator;
use crate::curve::g1_gen_bytes;
use crate::curve::g1_mul;
use crate::curve::g1_mul_of;
use crate::curve::g1_neg;
use crate::curve::g1_neg_of;
use crate::curve::g2_generator;
use crate::curve::g2_gen_bytes;
use crate::curve::g2_mul;
use crate::curve::g2_mul_generator;
use crate::curve::g2_mul_of;
use crate::curve::g2_neg;
use crate::curve::g2_neg_of;
use crate::curve::g2_base_pow_of;
use crate::curve::is_pow2;
use crate::curve::Fr;
use crate::curve::G1;
use crate::curve::G2;
use crate::curve::MAX_DOMAIN_SIZE;
use crate::domain::fr_power_of;

verus! {

/// The fixed elements every context of one setup carries.
pub open spec fn setup_params_fixed(p: SetupParams) -> bool {
    &&& p.g@ == g1_gen_bytes()
    &&& p.h@ == g2_gen_bytes()
    &&& p.g_inv@ == g1_neg_of(g1_gen_bytes())
    &&& p.h_inv@ == g2_neg_of(g2_gen_bytes())
}

/// What one fast public context holds for position `j`: the domain
/// point, the commitment to the share, and the blinded share of the
/// validator's blinding factor.
pub open spec fn pub_fast_holds(
    c: PublicDecryptionContextFast,
    gen: Seq<u8>,
    evals: Seq<Seq<u8>>,
    bs: Seq<Seq<u8>>,
    j: int,
) -> bool {
    &&& c.domain@ == fr_power_of(gen, j as nat)
    &&& c.lagrange_n_0@ == fr_power_of(gen, j as nat)
    &&& c.public_key_share.public_key_share@ == g1_mul_of(g1_gen_bytes(), evals[j])
    &&& c.blinded_key_share.blinding_key@ == g2_base_pow_of(bs[j])
    &&& c.blinded_key_share.blinded_key_share@ == g2_mul_of(
        g2_mul_of(g2_gen_bytes(), evals[j]),
        bs[j],
    )
    &&& c.h@ == g2_gen_bytes()
    &&& c.h_inv@ == g2_neg_of(g2_gen_bytes())
    &&& c.validator_public_key@ == g2_base_pow_of(bs[j])
}

/// What one simple public context holds for position `j`.
pub open spec fn pub_simple_holds(
    c: PublicDecryptionContextSimple,
    gen: Seq<u8>,
    evals: Seq<Seq<u8>>,
    bs: Seq<Seq<u8>>,
    j: int,
) -> bool {
    &&& c.domain@ == fr_power_of(gen, j as nat)
    &&& c.public_key_share.public_key_share@ == g1_mul_of(g1_gen_bytes(), evals[j])
    &&& c.blinded_key_share.blinding_key@ == g2_base_pow_of(bs[j])
    &&& c.blinded_key_share.blinded_key_share@ == g2_mul_of(
        g2_mul_of(g2_gen_bytes(), evals[j]),
        bs[j],
    )
    &&& c.h@ == g2_gen_bytes()
    &&& c.validator_public_key@ == g2_base_pow_of(bs[j])
}


/// What a fast setup returns for some sampled polynomial `coeffs` and
/// blinding factors `bs`.
pub open spec fn setup_fast_rel(
    pubkey: Seq<u8>,
    privkey: Seq<u8>,
    ctxs: Seq<PrivateDecryptionContextFast>,
    threshold: nat,
    shares_num: nat,
    coeffs: Seq<Seq<u8>>,
    bs: Seq<Seq<u8>>,
) -> bool {
    let evals = fr_fft_of(coeffs, shares_num as u64);
    let gen = domain_generator_of(shares_num as u64);
    &&& coeffs.len() == threshold
    &&& bs.len() == shares_num
    &&& pubkey == g1_mul_of(g1_gen_bytes(), coeffs[0])
    &&& privkey == g2_mul_of(g2_gen_bytes(), coeffs[0])
    &&& ctxs.len() == shares_num
    &&& forall|i: int|
        0 <= i < shares_num ==> {
            let c = #[trigger] ctxs[i];
            &&& c.index == i
            &&& setup_params_fixed(c.setup_params)
            &&& c.setup_params.b@ == bs[i]
            &&& !fr_is_zero_of(bs[i])
            &&& c.setup_params.b_inv@ == fr_inverse_of(bs[i])
            &&& c.private_key_share.private_key_share@ == g2_mul_of(g2_gen_bytes(), evals[i])
            &&& c.public_decryption_contexts@.len() == shares_num
            &&& forall|j: int|
                0 <= j < shares_num ==> pub_fast_holds(
                    #[trigger] c.public_decryption_contexts@[j],
                    gen,
                    evals,
                    bs,
                    j,
                )
        }
}

/// What a simple setup returns for some sampled polynomial `coeffs`
/// and blinding factors `bs`.
pub open spec fn setup_simple_rel(
    pubkey: Seq<u8>,
    privkey: Seq<u8>,
    ctxs: Seq<PrivateDecryptionContextSimple>,
    threshold: nat,
    shares_num: nat,
    coeffs: Seq<Seq<u8>>,
    bs: Seq<Seq<u8>>,
) -> bool {
    let evals = fr_fft_of(coeffs, shares_num as u64);
    let gen = domain_generator_of(shares_num as u64);
    &&& coeffs.len() == threshold
    &&& bs.len() == shares_num
    &&& pubkey == g1_mul_of(g1_gen_bytes(), coeffs[0])
    &&& privkey == g2_mul_of(g2_gen_bytes(), coeffs[0])
    &&& ctxs.len() == shares_num
    &&& forall|i: int|
        0 <= i < shares_num ==> {
            let c = #[trigger] ctxs[i];
            &&& c.index == i
            &&& setup_params_fixed(c.setup_params)
            &&& c.setup_params.b@ == bs[i]
            &&& !fr_is_zero_of(bs[i])
            &&& c.setup_params.b_inv@ == fr_inverse_of(bs[i])
            &&& c.validator_private_key@ == bs[i]
            &&& c.private_key_share.private_key_share@ == g2_mul_of(g2_gen_bytes(), evals[i])
            &&& c.public_decryption_contexts@.len() == shares_num
            &&& forall|j: int|
                0 <= j < shares_num ==> pub_simple_holds(
                    #[trigger] c.public_decryption_contexts@[j],
                    gen,
                    evals,
                    bs,
                    j,
                )
        }
}

/// Whether two fast public contexts hold the same values.
pub open spec fn pub_fast_view_eq(a: PublicDecryptionContextFast, b: PublicDecryptionContextFast) -> bool {
    &&& a.domain@ == b.domain@
    &&& a.lagrange_n_0@ == b.lagrange_n_0@
    &&& a.public_key_share.public_key_share@ == b.public_key_share.public_key_share@
    &&& a.blinded_key_share.blinding_key@ == b.blinded_key_share.blinding_key@
    &&& a.blinded_key_share.blinded_key_share@ == b.blinded_key_share.blinded_key_share@
    &&& a.h@ == b.h@
    &&& a.h_inv@ == b.h_inv@
    &&& a.validator_public_key@ == b.validator_public_key@
}

/// Whether two simple public contexts hold the same values.
pub open spec fn pub_simple_view_eq(a: PublicDecryptionContextSimple, b: PublicDecryptionContextSimple) -> bool {
    &&& a.domain@ == b.domain@
    &&& a.public_key_share.public_key_share@ == b.public_key_share.public_key_share@
    &&& a.blinded_key_share.blinding_key@ == b.blinded_key_share.blinding_key@
    &&& a.blinded_key_share.blinded_key_share@ == b.blinded_key_share.blinded_key_share@
    &&& a.h@ == b.h@
    &&& a.validator_public_key@ == b.validator_public_key@
}

/// Draw a blinding factor that can be inverted, together with its
/// inverse.  The zero draw falls back to one.
fn invertible_random(rng: &mut rand::rngs::StdRng) -> (r: (Fr, Fr))
    ensures
        !fr_is_zero_of(r.0@),
        r.1@ == fr_inverse_of(r.0@),
{
    let b = fr_random(rng);
    match fr_inverse(&b) {
        Some(b_inv) => (b, b_inv),
        None => {
            let one = fr_one();
            match fr_inverse(&one) {
                Some(one_inv) => (one, one_inv),
                None => {
                    // Unreachable: one is not zero.
                    assert(false);
                    (fr_one(), fr_one())
                },
            }
        },
    }
}

/// A fresh copy of a fast public context vector.
fn dup_pub_fast_vec(v: &Vec<PublicDecryptionContextFast>) -> (r: Vec<PublicDecryptionContextFast>)
    ensures
        r@.len() == v@.len(),
        forall|j: int| 0 <= j < v@.len() ==> pub_fast_view_eq(#[trigger] r@[j], v@[j]),
{
    let mut out: Vec<PublicDecryptionContextFast> = Vec::new();
    let mut i: usize = 0;
    while i < v.len()
        invariant
            i <= v@.len(),
            out@.len() == i,
            forall|j: int| 0 <= j < i ==> pub_fast_view_eq(#[trigger] out@[j], v@[j]),
        decreases v@.len() - i,
    {
        let c = &v[i];
        let copied = PublicDecryptionContextFast {
            domain: c.domain.dup(),
            public_key_share: PublicKeyShare {
                public_key_share: c.public_key_share.public_key_share.dup(),
            },
            blinded_key_share: BlindedKeyShare {
                blinding_key: c.blinded_key_share.blinding_key.dup(),
                blinded_key_share: c.blinded_key_share.blinded_key_share.dup(),
            },
            lagrange_n_0: c.lagrange_n_0.dup(),
            h_inv: c.h_inv.dup(),
            h: c.h.dup(),
            validator_public_key: c.validator_public_key.dup(),
        };
        out.push(copied);
        i = i + 1;
    }
    out
}

/// A fresh copy of a simple public context vector.
fn dup_pub_simple_vec(v: &Vec<PublicDecryptionContextSimple>) -> (r: Vec<
    PublicDecryptionContextSimple,
>)
    ensures
        r@.len() == v@.len(),
        forall|j: int| 0 <= j < v@.len() ==> pub_simple_view_eq(#[trigger] r@[j], v@[j]),
{
    let mut out: Vec<PublicDecryptionContextSimple> = Vec::new();
    let mut i: usize = 0;
    while i < v.len()
        invariant
            i <= v@.len(),
            out@.len() == i,
            forall|j: int| 0 <= j < i ==> pub_simple_view_eq(#[trigger] out@[j], v@[j]),
        decreases v@.len() - i,
    {
        let c = &v[i];
        let copied = PublicDecryptionContextSimple {
            domain: c.domain.dup(),
            public_key_share: PublicKeyShare {
                public_key_share: c.public_key_share.public_key_share.dup(),
            },
            blinded_key_share: BlindedKeyShare {
                blinding_key: c.blinded_key_share.blinding_key.dup(),
                blinded_key_share: c.blinded_key_share.blinded_key_share.dup(),
            },
            h: c.h.dup(),
            validator_public_key: c.validator_public_key.dup(),
        };
        out.push(copied);
        i = i + 1;
    }
    out
}

/// Set up the fast variant: sample a sharing polynomial of degree
/// `threshold - 1`, evaluate it over the size-`shares_num` domain, and
/// return the joint public key, the joint private key, and every
/// validator's private context.
///
/// The blinded key shares are stored unscaled, as `(h · f(ωⁱ)) · bᵢ`.
/// A layout that pre-divides each blinded share by its domain point, so
/// that a full-committee combination can reuse the fixed
/// `lagrange_n_0` factors, is observably equivalent; here the
/// combiner's preparation step computes the Lagrange coefficients over
/// the participating points instead, which also serves subsets.
pub fn setup_fast(threshold: usize, shares_num: usize, rng: &mut rand::rngs::StdRng) -> (r: (
    G1,
    G2,
    Vec<PrivateDecryptionContextFast>,
))
    requires
        1 <= threshold <= shares_num,
        is_pow2(shares_num as nat),
        shares_num <= MAX_DOMAIN_SIZE,
    ensures
        r.2@.len() == shares_num,
        exists|coeffs: Seq<Seq<u8>>, bs: Seq<Seq<u8>>|
            #[trigger] setup_fast_rel(r.0@, r.1@, r.2@, threshold as nat, shares_num as nat, coeffs, bs),
{
    let g = g1_generator();
    let h = g2_generator();
    let n = shares_num;

    let mut coeffs: Vec<Fr> = Vec::new();
    let mut i: usize = 0;
    while i < threshold
        invariant
            i <= threshold,
            coeffs@.len() == i,
        decreases threshold - i,
    {
        coeffs.push(fr_random(rng));
        i = i + 1;
    }
    let evals = fr_fft(&coeffs, n as u64);
    let gen = domain_generator(n as u64);

    let mut publics: Vec<PublicDecryptionContextFast> = Vec::new();
    let mut blindings: Vec<Fr> = Vec::new();
    let mut blinding_invs: Vec<Fr> = Vec::new();
    let mut point: Fr = fr_one();
    let mut i: usize = 0;
    while i < n
        invariant
            i <= n,
            evals@.len() == n,
            gen@ == domain_generator_of(n as u64),
            g@ == g1_gen_bytes(),
            h@ == g2_gen_bytes(),
            publics@.len() == i,
            blindings@.len() == i,
            blinding_invs@.len() == i,
            point@ == fr_power_of(gen@, i as nat),
            forall|j: int| 0 <= j < i ==> !fr_is_zero_of((#[trigger] blindings@[j])@),
            forall|j: int|
                0 <= j < i ==> (#[trigger] blinding_invs@[j])@ == fr_inverse_of(blindings@[j]@),
            forall|j: int|
                0 <= j < i ==> pub_fast_holds(
                    #[trigger] publics@[j],
                    gen@,
                    frs_view(evals@),
                    frs_view(blindings@),
                    j,
                ),
        decreases n - i,
    {
        let (b, b_inv) = invertible_random(rng);
        let z = g2_mul(&h, &evals[i]);
        let ghost before = blindings@;
        let entry = PublicDecryptionContextFast {
            domain: point.dup(),
            public_key_share: PublicKeyShare { public_key_share: g1_mul(&g, &evals[i]) },
            blinded_key_share: BlindedKeyShare {
                blinding_key: g2_mul_generator(&b),
                blinded_key_share: g2_mul(&z, &b),
            },
            lagrange_n_0: point.dup(),
            h_inv: g2_neg(&h),
            h: h.dup(),
            validator_public_key: g2_mul_generator(&b),
        };
        publics.push(entry);
        blindings.push(b);
        blinding_invs.push(b_inv);
        point = fr_mul(&point, &gen);
        proof {
            assert(frs_view(evals@)[i as int] == evals@[i as int]@);
            assert(frs_view(blindings@)[i as int] == blindings@[i as int]@);
            assert forall|j: int| 0 <= j < i + 1 implies pub_fast_holds(
                #[trigger] publics@[j],
                gen@,
                frs_view(evals@),
                frs_view(blindings@),
                j,
            ) by {
                assert(frs_view(blindings@) =~= frs_view(before).push(blindings@[i as int]@));
                if j < i {
                    assert(frs_view(blindings@)[j] == frs_view(before)[j]);
                }
            }
        }
        i = i + 1;
    }

    let mut contexts: Vec<PrivateDecryptionContextFast> = Vec::new();
    let mut i: usize = 0;
    while i < n
        invariant
            i <= n,
            evals@.len() == n,
            gen@ == domain_generator_of(n as u64),
            g@ == g1_gen_bytes(),
            h@ == g2_gen_bytes(),
            publics@.len() == n,
            blindings@.len() == n,
            blinding_invs@.len() == n,
            forall|j: int| 0 <= j < n ==> !fr_is_zero_of((#[trigger] blindings@[j])@),
            forall|j: int|
                0 <= j < n ==> (#[trigger] blinding_invs@[j])@ == fr_inverse_of(blindings@[j]@),
            forall|j: int|
                0 <= j < n ==> pub_fast_holds(
                    #[trigger] publics@[j],
                    gen@,
                    frs_view(evals@),
                    frs_view(blindings@),
                    j,
                ),
            contexts@.len() == i,
            forall|j: int|
                0 <= j < i ==> {
                    let c = #[trigger] contexts@[j];
                    &&& c.index == j
                    &&& setup_params_fixed(c.setup_params)
                    &&& c.setup_params.b@ == frs_view(blindings@)[j]
                    &&& c.setup_params.b_inv@ == fr_inverse_of(frs_view(blindings@)[j])
                    &&& c.private_key_share.private_key_share@ == g2_mul_of(
                        g2_gen_bytes(),
                        frs_view(evals@)[j],
                    )
                    &&& c.public_decryption_contexts@.len() == n
                    &&& forall|m: int|
                        0 <= m < n ==> pub_fast_holds(
                            #[trigger] c.public_decryption_contexts@[m],
                            gen@,
                            frs_view(evals@),
                            frs_view(blindings@),
                            m,
                        )
                },
        decreases n - i,
    {
        let entry = PrivateDecryptionContextFast {
            index: i,
            setup_params: SetupParams {
                b: blindings[i].dup(),
                b_inv: blinding_invs[i].dup(),
                g: g.dup(),
                h_inv: g2_neg(&h),
                g_inv: g1_neg(&g),
                h: h.dup(),
            },
            private_key_share: PrivateKeyShare { private_key_share: g2_mul(&h, &evals[i]) },
            public_decryption_contexts: dup_pub_fast_vec(&publics),
        };
        contexts.push(entry);
        proof {
            assert(frs_view(evals@)[i as int] == evals@[i as int]@);
            assert(frs_view(blindings@)[i as int] == blindings@[i as int]@);
        }
        i = i + 1;
    }

    let pubkey = g1_mul(&g, &coeffs[0]);
    let privkey = g2_mul(&h, &coeffs[0]);
    let r = (pubkey, privkey, contexts);
    proof {
        let wc = frs_view(coeffs@);
        let wb = frs_view(blindings@);
        assert(wc[0] == coeffs@[0]@);
        assert(frs_view(evals@) == fr_fft_of(wc, shares_num as u64));
        assert(setup_fast_rel(r.0@, r.1@, r.2@, threshold as nat, shares_num as nat, wc, wb));
    }
    r
}

/// Set up the simple variant; as the fast one, but the public contexts
/// carry no prepared Lagrange data and each private context keeps its
/// blinding factor as the validator's decryption key.
pub fn setup_simple(threshold: usize, shares_num: usize, rng: &mut rand::rngs::StdRng) -> (r: (
    G1,
    G2,
    Vec<PrivateDecryptionContextSimple>,
))
    requires
        1 <= threshold <= shares_num,
        is_pow2(shares_num as nat),
        shares_num <= MAX_DOMAIN_SIZE,
    ensures
        r.2@.len() == shares_num,
        exists|coeffs: Seq<Seq<u8>>, bs: Seq<Seq<u8>>|
            #[trigger] setup_simple_rel(r.0@, r.1@, r.2@, threshold as nat, shares_num as nat, coeffs, bs),
{
    let g = g1_generator();
    let h = g2_generator();
    let n = shares_num;

    let mut coeffs: Vec<Fr> = Vec::new();
    let mut i: usize = 0;
    while i < threshold
        invariant
            i <= threshold,
            coeffs@.len() == i,
        decreases threshold - i,
    {
        coeffs.push(fr_random(rng));
        i = i + 1;
    }
    let evals = fr_fft(&coeffs, n as u64);
    let gen = domain_generator(n as u64);

    let mut publics: Vec<PublicDecryptionContextSimple> = Vec::new();
    let mut blindings: Vec<Fr> = Vec::new();
    let mut blinding_invs: Vec<Fr> = Vec::new();
    let mut point: Fr = fr_one();
    let mut i: usize = 0;
    while i < n
        invariant
            i <= n,
            evals@.len() == n,
            gen@ == domain_generator_of(n as u64),
            g@ == g1_gen_bytes(),
            h@ == g2_gen_bytes(),
            publics@.len() == i,
            blindings@.len() == i,
            blinding_invs@.len() == i,
            point@ == fr_power_of(gen@, i as nat),
            forall|j: int| 0 <= j < i ==> !fr_is_zero_of((#[trigger] blindings@[j])@),
            forall|j: int|
                0 <= j < i ==> (#[trigger] blinding_invs@[j])@ == fr_inverse_of(blindings@[j]@),
            forall|j: int|
                0 <= j < i ==> pub_simple_holds(
                    #[trigger] publics@[j],
                    gen@,
                    frs_view(evals@),
                    frs_view(blindings@),
                    j,
                ),
        decreases n - i,
    {
        let (b, b_inv) = invertible_random(rng);
        let z = g2_mul(&h, &evals[i]);
        let ghost before = blindings@;
        let entry = PublicDecryptionContextSimple {
            domain: point.dup(),
            public_key_share: PublicKeyShare { public_key_share: g1_mul(&g, &evals[i]) },
            blinded_key_share: BlindedKeyShare {
                blinding_key: g2_mul_generator(&b),
                blinded_key_share: g2_mul(&z, &b),
            },
            h: h.dup(),
            validator_public_key: g2_mul_generator(&b),
        };
        publics.push(entry);
        blindings.push(b);
        blinding_invs.push(b_inv);
        point = fr_mul(&point, &gen);
        proof {
            assert(frs_view(evals@)[i as int] == evals@[i as int]@);
            assert(frs_view(blindings@)[i as int] == blindings@[i as int]@);
            assert forall|j: int| 0 <= j < i + 1 implies pub_simple_holds(
                #[trigger] publics@[j],
                gen@,
                frs_view(evals@),
                frs_view(blindings@),
                j,
            ) by {
                assert(frs_view(blindings@) =~= frs_view(before).push(blindings@[i as int]@));
                if j < i {
                    assert(frs_view(blindings@)[j] == frs_view(before)[j]);
                }
            }
        }
        i = i + 1;
    }

    let mut contexts: Vec<PrivateDecryptionContextSimple> = Vec::new();
    let mut i: usize = 0;
    while i < n
        invariant
            i <= n,
            evals@.len() == n,
            gen@ == domain_generator_of(n as u64),
            g@ == g1_gen_bytes(),
            h@ == g2_gen_bytes(),
            publics@.len() == n,
            blindings@.len() == n,
            blinding_invs@.len() == n,
            forall|j: int| 0 <= j < n ==> !fr_is_zero_of((#[trigger] blindings@[j])@),
            forall|j: int|
                0 <= j < n ==> (#[trigger] blinding_invs@[j])@ == fr_inverse_of(blindings@[j]@),
            forall|j: int|
                0 <= j < n ==> pub_simple_holds(
                    #[trigger] publics@[j],
                    gen@,
                    frs_view(evals@),
                    frs_view(blindings@),
                    j,
                ),
            contexts@.len() == i,
            forall|j: int|
                0 <= j < i ==> {
                    let c = #[trigger] contexts@[j];
                    &&& c.index == j
                    &&& setup_params_fixed(c.setup_params)
                    &&& c.setup_params.b@ == frs_view(blindings@)[j]
                    &&& c.setup_params.b_inv@ == fr_inverse_of(frs_view(blindings@)[j])
                    &&& c.validator_private_key@ == frs_view(blindings@)[j]
                    &&& c.private_key_share.private_key_share@ == g2_mul_of(
                        g2_gen_bytes(),
                        frs_view(evals@)[j],
                    )
                    &&& c.public_decryption_contexts@.len() == n
                    &&& forall|m: int|
                        0 <= m < n ==> pub_simple_holds(
                            #[trigger] c.public_decryption_contexts@[m],
                            gen@,
                            frs_view(evals@),
                            frs_view(blindings@),
                            m,
                        )
                },
        decreases n - i,
    {
        let entry = PrivateDecryptionContextSimple {
            index: i,
            setup_params: SetupParams {
                b: blindings[i].dup(),
                b_inv: blinding_invs[i].dup(),
                g: g.dup(),
                h_inv: g2_neg(&h),
                g_inv: g1_neg(&g),
                h: h.dup(),
            },
            private_key_share: PrivateKeyShare { private_key_share: g2_mul(&h, &evals[i]) },
            validator_private_key: blindings[i].dup(),
            public_decryption_contexts: dup_pub_simple_vec(&publics),
        };
        contexts.push(entry);
        proof {
            assert(frs_view(evals@)[i as int] == evals@[i as int]@);
            assert(frs_view(blindings@)[i as int] == blindings@[i as int]@);
        }
        i = i + 1;
    }

    let pubkey = g1_mul(&g, &coeffs[0]);
    let privkey = g2_mul(&h, &coeffs[0]);
    let r = (pubkey, privkey, contexts);
    proof {
        let wc = frs_view(coeffs@);
        let wb = frs_view(blindings@);
        assert(wc[0] == coeffs@[0]@);
        assert(frs_view(evals@) == fr_fft_of(wc, shares_num as u64));
        assert(setup_simple_rel(r.0@, r.1@, r.2@, threshold as nat, shares_num as nat, wc, wb));
    }
    r
}

} // verus!
