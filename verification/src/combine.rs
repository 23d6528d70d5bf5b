//! The combiner: Lagrange coefficients over a set of domain points and
//! the folds that recombine decryption shares into the shared secret.

use vstd::prelude::*;

use crate::curve::fr_inverse;
use crate::curve::fr_inverse_of;
use crate::curve::fr_is_zero_of;
use crate::curve::fr_mul;
use crate::curve::fr_mul_of;
use crate::curve::fr_of_u64;
use crate::curve::fr_one;
use crate::curve::fr_sub;
use crate::curve::fr_sub_of;
use crate::curve::fr_zero;
use crate::curve::frs_view;
use crate::curve::g2_mul;
use crate::curve::g2_mul_of;
use crate::curve::gt_mul;
use crate::curve::gt_mul_of;
use crate::curve::gt_pow;
use crate::curve::gt_pow_of;
use crate::curve::pairing;
use crate::curve::pairing_of;
use crate::curve::Fr;
use crate::curve::G2;
use crate::curve::Gt;
use crate::context::PublicDecryptionContextFast;
use crate::decryption::DecryptionShareFast;
use crate::decryption::DecryptionShareSimple;
use crate::error::ThresholdEncryptionError;

verus! {

/// The inverse of a scalar, or zero for the zero scalar.
pub open spec fn inv_or_zero(a: Seq<u8>) -> Seq<u8> {
    if fr_is_zero_of(a) {
        fr_of_u64(0)
    } else {
        fr_inverse_of(a)
    }
}

/// The partial product over `k < bound`, `k != j`, of
/// `(x - p_k) / (p_j - p_k)`, folded from one.
pub open spec fn lagrange_term(ps: Seq<Seq<u8>>, x: Seq<u8>, j: int, bound: int) -> Seq<u8>
    decreases bound,
{
    if bound <= 0 {
        fr_of_u64(1)
    } else if bound - 1 == j {
        lagrange_term(ps, x, j, bound - 1)
    } else {
        fr_mul_of(
            lagrange_term(ps, x, j, bound - 1),
            fr_mul_of(fr_sub_of(x, ps[bound - 1]), inv_or_zero(fr_sub_of(ps[j], ps[bound - 1]))),
        )
    }
}

/// The Lagrange basis over the points, evaluated at `x`.
pub open spec fn lagrange_at(ps: Seq<Seq<u8>>, x: Seq<u8>) -> Seq<Seq<u8>> {
    Seq::new(ps.len(), |j: int| lagrange_term(ps, x, j, ps.len() as int))
}

/// The Lagrange basis polynomials over the given points, evaluated at
/// `x`: for each position `j` the product over the other positions `k`
/// of `(x - p_k) / (p_j - p_k)`.  A repeated point makes its factor
/// zero rather than failing.
pub fn lagrange_basis_at(points: &Vec<Fr>, x: &Fr) -> (r: Vec<Fr>)
    ensures
        r@.len() == points@.len(),
        frs_view(r@) == lagrange_at(frs_view(points@), x@),
{
    let n = points.len();
    let mut out: Vec<Fr> = Vec::new();
    let mut j: usize = 0;
    while j < n
        invariant
            j <= n,
            n == points@.len(),
            out@.len() == j,
            forall|m: int|
                0 <= m < j ==> out@[m]@ == lagrange_term(frs_view(points@), x@, m, n as int),
        decreases n - j,
    {
        let mut acc: Fr = fr_one();
        let mut k: usize = 0;
        while k < n
            invariant
                k <= n,
                j < n,
                n == points@.len(),
                acc@ == lagrange_term(frs_view(points@), x@, j as int, k as int),
            decreases n - k,
        {
            if k != j {
                let d = fr_sub(&points[j], &points[k]);
                let d_inv = match fr_inverse(&d) {
                    Some(v) => v,
                    None => fr_zero(),
                };
                let num = fr_sub(x, &points[k]);
                acc = fr_mul(&acc, &fr_mul(&num, &d_inv));
                proof {
                    assert(frs_view(points@)[k as int] == points@[k as int]@);
                    assert(frs_view(points@)[j as int] == points@[j as int]@);
                }
            }
            k = k + 1;
        }
        out.push(acc);
        j = j + 1;
    }
    proof {
        assert forall|m: int| 0 <= m < n implies #[trigger] frs_view(out@)[m]
            == lagrange_at(frs_view(points@), x@)[m] by {
            assert(frs_view(out@)[m] == out@[m]@);
        }
        assert(frs_view(out@) =~= lagrange_at(frs_view(points@), x@));
    }
    out
}

/// The Lagrange coefficients at zero over the committee's domain
/// points, computed once per committee.
pub fn prepare_combine_simple(domain: &Vec<Fr>) -> (r: Vec<Fr>)
    ensures
        r@.len() == domain@.len(),
        frs_view(r@) == lagrange_at(frs_view(domain@), fr_of_u64(0)),
{
    let zero = fr_zero();
    lagrange_basis_at(domain, &zero)
}

/// The shares of a sequence of simple decryption shares.
pub open spec fn simple_share_views(ds: Seq<DecryptionShareSimple>) -> Seq<Seq<u8>> {
    ds.map_values(|d: DecryptionShareSimple| d.decryption_share@)
}

/// The product over the first `k` shares of `d_j` raised to `l_j`.
pub open spec fn combine_simple_upto(ds: Seq<Seq<u8>>, ls: Seq<Seq<u8>>, k: int) -> Seq<u8>
    decreases k,
{
    if k <= 1 {
        gt_pow_of(ds[0], ls[0])
    } else {
        gt_mul_of(combine_simple_upto(ds, ls, k - 1), gt_pow_of(ds[k - 1], ls[k - 1]))
    }
}

/// Fold simple decryption shares with their Lagrange coefficients into
/// the shared secret: the product of the shares, each raised to its
/// coefficient.  One coefficient is consumed per share; surplus shares
/// beyond the coefficients take no part.
pub fn share_combine_simple(shares: &Vec<DecryptionShareSimple>, lagrange: &Vec<Fr>) -> (r: Gt)
    requires
        shares@.len() >= lagrange@.len(),
        lagrange@.len() >= 1,
    ensures
        r@ == combine_simple_upto(
            simple_share_views(shares@),
            frs_view(lagrange@),
            lagrange@.len() as int,
        ),
{
    let mut acc: Gt = gt_pow(&shares[0].decryption_share, &lagrange[0]);
    proof {
        assert(simple_share_views(shares@)[0] == shares@[0].decryption_share@);
        assert(frs_view(lagrange@)[0] == lagrange@[0]@);
    }
    let mut k: usize = 1;
    while k < lagrange.len()
        invariant
            1 <= k <= lagrange@.len(),
            shares@.len() >= lagrange@.len(),
            acc@ == combine_simple_upto(simple_share_views(shares@), frs_view(lagrange@), k as int),
        decreases lagrange@.len() - k,
    {
        acc = gt_mul(&acc, &gt_pow(&shares[k].decryption_share, &lagrange[k]));
        proof {
            assert(simple_share_views(shares@)[k as int] == shares@[k as int].decryption_share@);
            assert(frs_view(lagrange@)[k as int] == lagrange@[k as int]@);
        }
        k = k + 1;
    }
    acc
}

/// The product of the first `k` shares.
pub open spec fn combine_precomputed_upto(ds: Seq<Seq<u8>>, k: int) -> Seq<u8>
    decreases k,
{
    if k <= 1 {
        ds[0]
    } else {
        gt_mul_of(combine_precomputed_upto(ds, k - 1), ds[k - 1])
    }
}

/// Fold decryption shares that were already scaled by their Lagrange
/// coefficients at creation: combining is a bare product.
pub fn share_combine_simple_precomputed(shares: &Vec<DecryptionShareSimple>) -> (r: Gt)
    requires
        shares@.len() >= 1,
    ensures
        r@ == combine_precomputed_upto(simple_share_views(shares@), shares@.len() as int),
{
    let mut acc: Gt = shares[0].decryption_share.dup();
    proof {
        assert(simple_share_views(shares@)[0] == shares@[0].decryption_share@);
    }
    let mut k: usize = 1;
    while k < shares.len()
        invariant
            1 <= k <= shares@.len(),
            acc@ == combine_precomputed_upto(simple_share_views(shares@), k as int),
        decreases shares@.len() - k,
    {
        acc = gt_mul(&acc, &shares[k].decryption_share);
        proof {
            assert(simple_share_views(shares@)[k as int] == shares@[k as int].decryption_share@);
        }
        k = k + 1;
    }
    acc
}

/// The blinded share of each fast share's decrypter, scaled by its
/// Lagrange coefficient at zero.
pub open spec fn prepared_fast_views(
    ctxs: Seq<PublicDecryptionContextFast>,
    ds: Seq<DecryptionShareFast>,
) -> Seq<Seq<u8>> {
    let pts = Seq::new(ds.len(), |i: int| ctxs[ds[i].decrypter_index as int].domain@);
    Seq::new(
        ds.len(),
        |i: int|
            g2_mul_of(
                ctxs[ds[i].decrypter_index as int].blinded_key_share.blinded_key_share@,
                lagrange_at(pts, fr_of_u64(0))[i],
            ),
    )
}

/// Scale each participating validator's blinded share by its Lagrange
/// coefficient at zero, over the domain points of the participants.
/// The blinded shares come unscaled from the setup, so the coefficients
/// are computed here for exactly the participating set; the fixed
/// `lagrange_n_0` factors of the public contexts are not consumed.
pub fn prepare_combine_fast(
    pub_contexts: &Vec<PublicDecryptionContextFast>,
    shares: &Vec<DecryptionShareFast>,
) -> (r: Vec<G2>)
    requires
        forall|i: int|
            0 <= i < shares@.len() ==> (#[trigger] shares@[i].decrypter_index)
                < pub_contexts@.len(),
    ensures
        r@.len() == shares@.len(),
        g2s_views_of(r@) == prepared_fast_views(pub_contexts@, shares@),
{
    let n = shares.len();
    let mut pts: Vec<Fr> = Vec::new();
    let mut i: usize = 0;
    while i < n
        invariant
            i <= n,
            n == shares@.len(),
            pts@.len() == i,
            forall|m: int|
                0 <= m < shares@.len() ==> (#[trigger] shares@[m].decrypter_index)
                    < pub_contexts@.len(),
            forall|m: int|
                0 <= m < i ==> pts@[m]@ == pub_contexts@[shares@[m].decrypter_index as int].domain@,
        decreases n - i,
    {
        pts.push(pub_contexts[shares[i].decrypter_index].domain.dup());
        i = i + 1;
    }
    let lagrange = lagrange_basis_at(&pts, &fr_zero());
    let mut out: Vec<G2> = Vec::new();
    let mut i: usize = 0;
    while i < n
        invariant
            i <= n,
            n == shares@.len(),
            pts@.len() == n,
            lagrange@.len() == n,
            frs_view(lagrange@) == lagrange_at(frs_view(pts@), fr_of_u64(0)),
            forall|m: int|
                0 <= m < shares@.len() ==> (#[trigger] shares@[m].decrypter_index)
                    < pub_contexts@.len(),
            forall|m: int|
                0 <= m < n ==> pts@[m]@ == pub_contexts@[shares@[m].decrypter_index as int].domain@,
            out@.len() == i,
            forall|m: int|
                0 <= m < i ==> out@[m]@ == g2_mul_of(
                    pub_contexts@[shares@[m].decrypter_index as int].blinded_key_share.blinded_key_share@,
                    lagrange_at(frs_view(pts@), fr_of_u64(0))[m],
                ),
        decreases n - i,
    {
        let idx = shares[i].decrypter_index;
        out.push(g2_mul(&pub_contexts[idx].blinded_key_share.blinded_key_share, &lagrange[i]));
        proof {
            assert(frs_view(lagrange@)[i as int] == lagrange@[i as int]@);
        }
        i = i + 1;
    }
    proof {
        let pview = prepared_fast_views(pub_contexts@, shares@);
        assert forall|m: int| 0 <= m < n implies #[trigger] g2s_views_of(out@)[m] == pview[m] by {
            assert(g2s_views_of(out@)[m] == out@[m]@);
            let spts = Seq::new(
                shares@.len(),
                |i: int| pub_contexts@[shares@[i].decrypter_index as int].domain@,
            );
            assert(frs_view(pts@) =~= spts);
        }
        assert(g2s_views_of(out@) =~= pview);
    }
    out
}

/// The encodings of a sequence of G2 points.
pub open spec fn g2s_views_of(s: Seq<G2>) -> Seq<Seq<u8>> {
    s.map_values(|p: G2| p@)
}

/// The product over the first `k` fast shares of the pairing of the
/// share with its prepared blinded counterpart.
pub open spec fn combine_fast_upto(ds: Seq<Seq<u8>>, ps: Seq<Seq<u8>>, k: int) -> Seq<u8>
    decreases k,
{
    if k <= 1 {
        pairing_of(ds[0], ps[0])
    } else {
        gt_mul_of(combine_fast_upto(ds, ps, k - 1), pairing_of(ds[k - 1], ps[k - 1]))
    }
}

/// The commitments of a sequence of fast decryption shares.
pub open spec fn fast_share_views(ds: Seq<DecryptionShareFast>) -> Seq<Seq<u8>> {
    ds.map_values(|d: DecryptionShareFast| d.decryption_share@)
}

/// Fold fast decryption shares against their prepared blinded shares:
/// one pairing per share, multiplied together.
pub fn share_combine_fast(
    shares: &Vec<DecryptionShareFast>,
    prepared_key_shares: &Vec<G2>,
) -> (r: Gt)
    requires
        shares@.len() == prepared_key_shares@.len(),
        shares@.len() >= 1,
    ensures
        r@ == combine_fast_upto(
            fast_share_views(shares@),
            g2s_views_of(prepared_key_shares@),
            shares@.len() as int,
        ),
{
    let mut acc: Gt = pairing(&shares[0].decryption_share, &prepared_key_shares[0]);
    proof {
        assert(fast_share_views(shares@)[0] == shares@[0].decryption_share@);
        assert(g2s_views_of(prepared_key_shares@)[0] == prepared_key_shares@[0]@);
    }
    let mut k: usize = 1;
    while k < shares.len()
        invariant
            1 <= k <= shares@.len(),
            shares@.len() == prepared_key_shares@.len(),
            acc@ == combine_fast_upto(
                fast_share_views(shares@),
                g2s_views_of(prepared_key_shares@),
                k as int,
            ),
        decreases shares@.len() - k,
    {
        acc = gt_mul(&acc, &pairing(&shares[k].decryption_share, &prepared_key_shares[k]));
        proof {
            assert(fast_share_views(shares@)[k as int] == shares@[k as int].decryption_share@);
            assert(g2s_views_of(prepared_key_shares@)[k as int] == prepared_key_shares@[k as int]@);
        }
        k = k + 1;
    }
    acc
}

/// Whether every fast share pairs consistently with its validator's
/// public key: `e(D_i, P_i) = e(U, h)`.
pub open spec fn fast_shares_valid(
    ctxs: Seq<PublicDecryptionContextFast>,
    u: Seq<u8>,
    ds: Seq<DecryptionShareFast>,
) -> bool {
    forall|i: int|
        0 <= i < ds.len() ==> pairing_of(
            (#[trigger] ds[i]).decryption_share@,
            ctxs[ds[i].decrypter_index as int].validator_public_key@,
        ) == pairing_of(u, ctxs[ds[i].decrypter_index as int].h@)
}

/// Verify every fast share against its validator's public key, then
/// combine.  Fails with `DecryptionShareVerificationFailed` exactly
/// when some share does not pass.
pub fn checked_share_combine_fast(
    pub_contexts: &Vec<PublicDecryptionContextFast>,
    ciphertext: &crate::ciphertext::Ciphertext,
    shares: &Vec<DecryptionShareFast>,
    prepared_key_shares: &Vec<G2>,
) -> (r: Result<Gt, ThresholdEncryptionError>)
    requires
        shares@.len() == prepared_key_shares@.len(),
        shares@.len() >= 1,
        forall|i: int|
            0 <= i < shares@.len() ==> (#[trigger] shares@[i].decrypter_index)
                < pub_contexts@.len(),
    ensures
        (r is Ok) == fast_shares_valid(pub_contexts@, ciphertext.commitment@, shares@),
        r matches Err(e) ==> e is DecryptionShareVerificationFailed,
        r matches Ok(s) ==> s@ == combine_fast_upto(
            fast_share_views(shares@),
            g2s_views_of(prepared_key_shares@),
            shares@.len() as int,
        ),
{
    let n = shares.len();
    let mut i: usize = 0;
    while i < n
        invariant
            i <= n,
            n == shares@.len(),
            forall|m: int|
                0 <= m < shares@.len() ==> (#[trigger] shares@[m].decrypter_index)
                    < pub_contexts@.len(),
            forall|m: int|
                0 <= m < i ==> pairing_of(
                    (#[trigger] shares@[m]).decryption_share@,
                    pub_contexts@[shares@[m].decrypter_index as int].validator_public_key@,
                ) == pairing_of(
                    ciphertext.commitment@,
                    pub_contexts@[shares@[m].decrypter_index as int].h@,
                ),
        decreases n - i,
    {
        let idx = shares[i].decrypter_index;
        let lhs = pairing(&shares[i].decryption_share, &pub_contexts[idx].validator_public_key);
        let rhs = pairing(&ciphertext.commitment, &pub_contexts[idx].h);
        if !lhs.equals(&rhs) {
            return Err(ThresholdEncryptionError::DecryptionShareVerificationFailed);
        }
        i = i + 1;
    }
    Ok(share_combine_fast(shares, prepared_key_shares))
}

} // verus!
