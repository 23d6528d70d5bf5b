//! Share refresh and recovery: updates that move every share to a new
//! polynomial without changing the joint key, and the interpolation
//! that rebuilds a share at a chosen evaluation point.
//!
//! Each remaining participant deals a random polynomial vanishing at
//! the target point and hands every other participant its evaluation,
//! lifted onto the G2 generator.  Adding the updates to a share moves
//! it onto the sum polynomial; interpolating the updated shares at the
//! target point yields the recovered share.

use vstd::prelude::*;

use crate::combine::lagrange_at;
use crate::combine::lagrange_basis_at;
use crate::context::PrivateKeyShare;
use crate::curve::fr_add;
use crate::curve::fr_add_of;
use crate::curve::fr_mul;
use crate::curve::fr_mul_of;
use crate::curve::fr_of_u64;
use crate::curve::fr_random;
use crate::curve::fr_sub;
use crate::curve::fr_sub_of;
use crate::curve::fr_zero;
use crate::curve::frs_view;
use crate::curve::g2_add;
use crate::curve::g2_add_of;
use crate::curve::g2_mul;
use crate::curve::g2_mul_of;
use crate::curve::Fr;
use crate::curve::G2;

verus! {

/// The Horner evaluation of the polynomial whose coefficients start at
/// index `k`: `cs[k] + x · (cs[k+1] + x · (…))`.
pub open spec fn horner_from(cs: Seq<Seq<u8>>, x: Seq<u8>, k: int) -> Seq<u8>
    decreases cs.len() - k,
{
    if k < 0 || k >= cs.len() {
        fr_of_u64(0)
    } else {
        fr_add_of(fr_mul_of(horner_from(cs, x, k + 1), x), cs[k])
    }
}

/// Evaluate a polynomial at a point by Horner's rule.
pub fn evaluate_polynomial(coeffs: &Vec<Fr>, x: &Fr) -> (r: Fr)
    ensures
        r@ == horner_from(frs_view(coeffs@), x@, 0),
{
    let mut acc: Fr = fr_zero();
    let mut i: usize = coeffs.len();
    while i > 0
        invariant
            i <= coeffs@.len(),
            acc@ == horner_from(frs_view(coeffs@), x@, i as int),
        decreases i,
    {
        i = i - 1;
        acc = fr_add(&fr_mul(&acc, x), &coeffs[i]);
        proof {
            assert(frs_view(coeffs@)[i as int] == coeffs@[i as int]@);
        }
    }
    acc
}

/// Deal a random polynomial of degree `threshold - 1` vanishing at the
/// given root: the tail coefficients are fresh, and the constant
/// coefficient cancels the tail's value at the root.
pub fn make_random_polynomial_at(
    threshold: usize,
    root: &Fr,
    rng: &mut rand::rngs::StdRng,
) -> (r: Vec<Fr>)
    requires
        threshold >= 1,
    ensures
        r@.len() == threshold,
        r@[0]@ == fr_sub_of(
            fr_of_u64(0),
            fr_mul_of(horner_from(frs_view(r@), root@, 1), root@),
        ),
{
    let mut coeffs: Vec<Fr> = Vec::new();
    coeffs.push(fr_zero());
    let mut i: usize = 1;
    while i < threshold
        invariant
            1 <= i <= threshold,
            coeffs@.len() == i,
        decreases threshold - i,
    {
        coeffs.push(fr_random(rng));
        i = i + 1;
    }
    // The tail's value at the root, times the root: the full value of
    // the polynomial there with a zero constant coefficient.
    let mut acc: Fr = fr_zero();
    let mut i: usize = coeffs.len();
    while i > 1
        invariant
            1 <= i <= coeffs@.len(),
            acc@ == horner_from(frs_view(coeffs@), root@, i as int),
        decreases i,
    {
        i = i - 1;
        acc = fr_add(&fr_mul(&acc, root), &coeffs[i]);
        proof {
            assert(frs_view(coeffs@)[i as int] == coeffs@[i as int]@);
        }
    }
    let tail_at_root = fr_mul(&acc, root);
    let zero = fr_zero();
    let c0 = fr_sub(&zero, &tail_at_root);
    let ghost before = coeffs@;
    coeffs.set(0, c0);
    proof {
        assert(frs_view(coeffs@) =~= frs_view(before).update(0, c0@));
        assert forall|k: int| 1 <= k <= coeffs@.len() implies #[trigger] horner_from(
            frs_view(coeffs@),
            root@,
            k,
        ) == horner_from(frs_view(before), root@, k) by {
            lemma_horner_tail_ignores_head(frs_view(before), c0@, root@, k);
        }
    }
    coeffs
}

/// Horner evaluation from index one onward does not look at the
/// constant coefficient.
proof fn lemma_horner_tail_ignores_head(cs: Seq<Seq<u8>>, c0: Seq<u8>, x: Seq<u8>, k: int)
    requires
        1 <= k <= cs.len(),
    ensures
        horner_from(cs.update(0, c0), x, k) == horner_from(cs, x, k),
    decreases cs.len() - k,
{
    if k < cs.len() {
        lemma_horner_tail_ignores_head(cs, c0, x, k + 1);
    }
}

/// Each remaining participant's updates for a recovery at `x_r`: the
/// evaluations of a fresh polynomial vanishing at `x_r`, one per
/// domain point, lifted onto `h`.
pub fn prepare_share_updates_for_recovery(
    domain_points: &Vec<Fr>,
    h: &G2,
    x_r: &Fr,
    threshold: usize,
    rng: &mut rand::rngs::StdRng,
) -> (r: Vec<G2>)
    requires
        threshold >= 1,
    ensures
        r@.len() == domain_points@.len(),
        exists|poly: Seq<Seq<u8>>|
            {
                &&& poly.len() == threshold
                &&& poly[0] == fr_sub_of(
                    fr_of_u64(0),
                    fr_mul_of(horner_from(poly, x_r@, 1), x_r@),
                )
                &&& forall|j: int|
                    0 <= j < r@.len() ==> (#[trigger] r@[j])@ == g2_mul_of(
                        h@,
                        horner_from(poly, domain_points@[j]@, 0),
                    )
            },
{
    let poly = make_random_polynomial_at(threshold, x_r, rng);
    let mut out: Vec<G2> = Vec::new();
    let mut j: usize = 0;
    while j < domain_points.len()
        invariant
            j <= domain_points@.len(),
            poly@.len() == threshold,
            out@.len() == j,
            forall|m: int|
                0 <= m < j ==> (#[trigger] out@[m])@ == g2_mul_of(
                    h@,
                    horner_from(frs_view(poly@), domain_points@[m]@, 0),
                ),
        decreases domain_points@.len() - j,
    {
        let ev = evaluate_polynomial(&poly, &domain_points[j]);
        out.push(g2_mul(h, &ev));
        j = j + 1;
    }
    proof {
        let w = frs_view(poly@);
        assert(w.len() == threshold);
    }
    out
}

/// A share after the updates of the first `k` dealers are added.
pub open spec fn updated_share_upto(z: Seq<u8>, us: Seq<Seq<u8>>, k: int) -> Seq<u8>
    decreases k,
{
    if k <= 0 {
        z
    } else {
        g2_add_of(updated_share_upto(z, us, k - 1), us[k - 1])
    }
}

/// Add the received updates to a private key share.
pub fn update_share_for_recovery(
    share: &PrivateKeyShare,
    share_updates: &Vec<G2>,
) -> (r: PrivateKeyShare)
    ensures
        r.private_key_share@ == updated_share_upto(
            share.private_key_share@,
            crate::combine::g2s_views_of(share_updates@),
            share_updates@.len() as int,
        ),
{
    let mut acc: G2 = share.private_key_share.dup();
    let mut k: usize = 0;
    while k < share_updates.len()
        invariant
            k <= share_updates@.len(),
            acc@ == updated_share_upto(
                share.private_key_share@,
                crate::combine::g2s_views_of(share_updates@),
                k as int,
            ),
        decreases share_updates@.len() - k,
    {
        acc = g2_add(&acc, &share_updates[k]);
        proof {
            assert(crate::combine::g2s_views_of(share_updates@)[k as int]
                == share_updates@[k as int]@);
        }
        k = k + 1;
    }
    PrivateKeyShare { private_key_share: acc }
}

/// The interpolation of the first `k` shares with their coefficients.
pub open spec fn interpolate_g2_upto(zs: Seq<Seq<u8>>, ls: Seq<Seq<u8>>, k: int) -> Seq<u8>
    decreases k,
{
    if k <= 1 {
        g2_mul_of(zs[0], ls[0])
    } else {
        g2_add_of(interpolate_g2_upto(zs, ls, k - 1), g2_mul_of(zs[k - 1], ls[k - 1]))
    }
}

/// The shares of a sequence of private key shares.
pub open spec fn key_share_views(ss: Seq<PrivateKeyShare>) -> Seq<Seq<u8>> {
    ss.map_values(|s: PrivateKeyShare| s.private_key_share@)
}

/// Interpolate updated share fragments at the recovery point: the
/// Lagrange combination of the fragments over their domain points,
/// evaluated at `x_r`.
pub fn recover_share_from_updated_private_shares(
    x_r: &Fr,
    domain_points: &Vec<Fr>,
    updated_private_shares: &Vec<PrivateKeyShare>,
) -> (r: PrivateKeyShare)
    requires
        domain_points@.len() == updated_private_shares@.len(),
        updated_private_shares@.len() >= 1,
    ensures
        r.private_key_share@ == interpolate_g2_upto(
            key_share_views(updated_private_shares@),
            lagrange_at(frs_view(domain_points@), x_r@),
            updated_private_shares@.len() as int,
        ),
{
    let lagrange = lagrange_basis_at(domain_points, x_r);
    let ghost ls = lagrange_at(frs_view(domain_points@), x_r@);
    let mut acc: G2 = g2_mul(&updated_private_shares[0].private_key_share, &lagrange[0]);
    proof {
        assert(key_share_views(updated_private_shares@)[0]
            == updated_private_shares@[0].private_key_share@);
        assert(frs_view(lagrange@)[0] == lagrange@[0]@);
    }
    let mut k: usize = 1;
    while k < updated_private_shares.len()
        invariant
            1 <= k <= updated_private_shares@.len(),
            lagrange@.len() == updated_private_shares@.len(),
            frs_view(lagrange@) == ls,
            acc@ == interpolate_g2_upto(key_share_views(updated_private_shares@), ls, k as int),
        decreases updated_private_shares@.len() - k,
    {
        acc = g2_add(&acc, &g2_mul(&updated_private_shares[k].private_key_share, &lagrange[k]));
        proof {
            assert(key_share_views(updated_private_shares@)[k as int]
                == updated_private_shares@[k as int].private_key_share@);
            assert(frs_view(lagrange@)[k as int] == lagrange@[k as int]@);
        }
        k = k + 1;
    }
    PrivateKeyShare { private_key_share: acc }
}

/// Move a share onto the refresh polynomial: add the polynomial's
/// evaluation at this validator's domain point, lifted onto `h`.
pub fn refresh_private_key_share(
    h: &G2,
    domain_point: &Fr,
    polynomial: &Vec<Fr>,
    current_key_share: &PrivateKeyShare,
) -> (r: PrivateKeyShare)
    ensures
        r.private_key_share@ == g2_add_of(
            current_key_share.private_key_share@,
            g2_mul_of(h@, horner_from(frs_view(polynomial@), domain_point@, 0)),
        ),
{
    let ev = evaluate_polynomial(polynomial, domain_point);
    PrivateKeyShare {
        private_key_share: g2_add(
            &current_key_share.private_key_share,
            &g2_mul(h, &ev),
        ),
    }
}

} // verus!
