//! The BLS12-381 layer.
//!
//! Scalars and group elements are carried as their canonical compressed
//! encodings.  Every arithmetic operation is delegated to `ark_bls12_381`
//! (through `ark_ec` / `ark_ff` / `ark_poly`) behind a trusted wrapper: the
//! wrapper decodes its arguments, performs the one curve operation, and
//! re-encodes the result.  A wrapper's contract speaks of an uninterpreted
//! name for the byte-level function it computes; the names are the
//! vocabulary of every contract downstream.
//!
//! Decoding inside a wrapper never panics: a byte string that is not a
//! canonical encoding decodes to a fixed fallback — the zero element, or
//! one in the multiplicative target group — so each name is a total
//! function of the argument bytes.  The fields of the types below are
//! private: every wrapper output is a canonical encoding and says so in
//! its contract, while a value built by one of the validating
//! constructors holds the accepted bytes as given — the deserializer
//! does not reject trailing bytes after a canonical prefix.

use vstd::prelude::*;

use ark_ec::hashing::HashToCurve;
use ark_ec::pairing::Pairing;
use ark_ec::AffineRepr;
use ark_ec::CurveGroup;
use ark_ff::Field;
use ark_ff::PrimeField;
use ark_poly::EvaluationDomain;
use ark_serialize::CanonicalDeserialize;
use ark_serialize::CanonicalSerialize;

verus! {

/// A scalar of the BLS12-381 scalar field, as its 32-byte canonical
/// little-endian encoding.
#[derive(Clone, PartialEq, Eq, Debug, Hash)]
pub struct Fr {
    bytes: Vec<u8>,
}

/// A point of the group G1, as its 48-byte canonical compressed encoding.
#[derive(Clone, PartialEq, Eq, Debug)]
pub struct G1 {
    bytes: Vec<u8>,
}

/// A point of the group G2, as its 96-byte canonical compressed encoding.
#[derive(Clone, PartialEq, Eq, Debug)]
pub struct G2 {
    bytes: Vec<u8>,
}

/// An element of the pairing target group, as the canonical encoding of
/// the underlying degree-twelve extension field element.
#[derive(Clone, PartialEq, Eq, Debug)]
pub struct Gt {
    bytes: Vec<u8>,
}

impl View for Fr {
    type V = Seq<u8>;

    closed spec fn view(&self) -> Seq<u8> {
        self.bytes@
    }
}

impl View for G1 {
    type V = Seq<u8>;

    closed spec fn view(&self) -> Seq<u8> {
        self.bytes@
    }
}

impl View for G2 {
    type V = Seq<u8>;

    closed spec fn view(&self) -> Seq<u8> {
        self.bytes@
    }
}

impl View for Gt {
    type V = Seq<u8>;

    closed spec fn view(&self) -> Seq<u8> {
        self.bytes@
    }
}

/// The encodings of a sequence of scalars.
pub open spec fn frs_view(s: Seq<Fr>) -> Seq<Seq<u8>> {
    s.map_values(|x: Fr| x@)
}

/// The encodings of a sequence of G1 points.
pub open spec fn g1s_view(s: Seq<G1>) -> Seq<Seq<u8>> {
    s.map_values(|p: G1| p@)
}

/// The encodings of a sequence of G2 points.
pub open spec fn g2s_view(s: Seq<G2>) -> Seq<Seq<u8>> {
    s.map_values(|p: G2| p@)
}

/// Whether `n` is a power of two.
pub open spec fn is_pow2(n: nat) -> bool
    decreases n,
{
    if n == 0 {
        false
    } else if n == 1 {
        true
    } else {
        n % 2 == 0 && is_pow2(n / 2)
    }
}

/// The largest domain the radix-2 FFT over the scalar field supports
/// (the two-adicity of the field is 32).
pub const MAX_DOMAIN_SIZE: u64 = 0x1_0000_0000;

// ----------------------------------------------------------------------
// Names for the byte-level functions the wrappers compute.  Each is the
// composition encode-op-decode for one curve operation, total on bytes
// because decoding maps a non-canonical string to a fixed fallback.
// ----------------------------------------------------------------------

/// The sum of two scalars.
pub uninterp spec fn fr_add_of(a: Seq<u8>, b: Seq<u8>) -> Seq<u8>;

/// The difference of two scalars.
pub uninterp spec fn fr_sub_of(a: Seq<u8>, b: Seq<u8>) -> Seq<u8>;

/// The product of two scalars.
pub uninterp spec fn fr_mul_of(a: Seq<u8>, b: Seq<u8>) -> Seq<u8>;

/// The multiplicative inverse of a non-zero scalar.
pub uninterp spec fn fr_inverse_of(a: Seq<u8>) -> Seq<u8>;

/// Whether the bytes decode to the zero scalar.
pub uninterp spec fn fr_is_zero_of(a: Seq<u8>) -> bool;

/// The scalar with the given small integer value.
pub uninterp spec fn fr_of_u64(n: u64) -> Seq<u8>;

/// Whether the bytes are a canonical scalar encoding.
pub uninterp spec fn fr_decodes(b: Seq<u8>) -> bool;

/// The generator of the radix-2 evaluation domain of the given size.
pub uninterp spec fn domain_generator_of(n: u64) -> Seq<u8>;

/// The evaluations over the size-`n` radix-2 domain of the polynomial
/// with the given coefficients.
pub uninterp spec fn fr_fft_of(coeffs: Seq<Seq<u8>>, n: u64) -> Seq<Seq<u8>>;

/// The coefficient form of a vector of G1 evaluations over the radix-2
/// domain whose size is the vector's length.
pub uninterp spec fn g1_ifft_of(evals: Seq<Seq<u8>>) -> Seq<Seq<u8>>;

/// The generator of G1 multiplied by a scalar.
pub uninterp spec fn g1_base_pow_of(s: Seq<u8>) -> Seq<u8>;

/// The sum of two G1 points.
pub uninterp spec fn g1_add_of(a: Seq<u8>, b: Seq<u8>) -> Seq<u8>;

/// A G1 point multiplied by a scalar.
pub uninterp spec fn g1_mul_of(p: Seq<u8>, s: Seq<u8>) -> Seq<u8>;

/// The negation of a G1 point.
pub uninterp spec fn g1_neg_of(p: Seq<u8>) -> Seq<u8>;

/// Whether the bytes are a canonical G1 encoding.
pub uninterp spec fn g1_decodes(b: Seq<u8>) -> bool;

/// The generator of G2 multiplied by a scalar.
pub uninterp spec fn g2_base_pow_of(s: Seq<u8>) -> Seq<u8>;

/// The sum of two G2 points.
pub uninterp spec fn g2_add_of(a: Seq<u8>, b: Seq<u8>) -> Seq<u8>;

/// A G2 point multiplied by a scalar.
pub uninterp spec fn g2_mul_of(p: Seq<u8>, s: Seq<u8>) -> Seq<u8>;

/// The negation of a G2 point.
pub uninterp spec fn g2_neg_of(p: Seq<u8>) -> Seq<u8>;

/// Whether the bytes are a canonical G2 encoding.
pub uninterp spec fn g2_decodes(b: Seq<u8>) -> bool;

/// The pairing of a G1 point with a G2 point.
pub uninterp spec fn pairing_of(p: Seq<u8>, q: Seq<u8>) -> Seq<u8>;

/// The product of two target-group elements.
pub uninterp spec fn gt_mul_of(a: Seq<u8>, b: Seq<u8>) -> Seq<u8>;

/// A target-group element raised to a scalar.
pub uninterp spec fn gt_pow_of(a: Seq<u8>, s: Seq<u8>) -> Seq<u8>;

/// Whether the bytes are a canonical target-group encoding.
pub uninterp spec fn gt_decodes(b: Seq<u8>) -> bool;

/// The hash of a message onto G2.
pub uninterp spec fn hash_to_g2_of(m: Seq<u8>) -> Seq<u8>;

/// The encoding of the generator of G1: the base point times one.
pub open spec fn g1_gen_bytes() -> Seq<u8> {
    g1_base_pow_of(fr_of_u64(1))
}

/// The encoding of the identity of G1: the base point times zero.
pub open spec fn g1_zero_bytes() -> Seq<u8> {
    g1_base_pow_of(fr_of_u64(0))
}

/// The encoding of the generator of G2: the base point times one.
pub open spec fn g2_gen_bytes() -> Seq<u8> {
    g2_base_pow_of(fr_of_u64(1))
}

// ----------------------------------------------------------------------
// Scalar field wrappers.
// ----------------------------------------------------------------------

/// Relies on `ark_ff` scalar addition over the BLS12-381 scalar field.
#[verifier::external_body]
pub(crate) fn fr_add(a: &Fr, b: &Fr) -> (r: Fr)
    ensures
        r@ == fr_add_of(a@, b@),
        fr_decodes(r@),
{
    let x = ark_bls12_381::Fr::deserialize_compressed(&a.bytes[..])
        .unwrap_or(ark_bls12_381::Fr::from(0u64));
    let y = ark_bls12_381::Fr::deserialize_compressed(&b.bytes[..])
        .unwrap_or(ark_bls12_381::Fr::from(0u64));
    let mut out: Vec<u8> = Vec::new();
    (x + y).serialize_compressed(&mut out).unwrap();
    Fr { bytes: out }
}

/// Relies on `ark_ff` scalar subtraction over the BLS12-381 scalar field.
#[verifier::external_body]
pub(crate) fn fr_sub(a: &Fr, b: &Fr) -> (r: Fr)
    ensures
        r@ == fr_sub_of(a@, b@),
        fr_decodes(r@),
{
    let x = ark_bls12_381::Fr::deserialize_compressed(&a.bytes[..])
        .unwrap_or(ark_bls12_381::Fr::from(0u64));
    let y = ark_bls12_381::Fr::deserialize_compressed(&b.bytes[..])
        .unwrap_or(ark_bls12_381::Fr::from(0u64));
    let mut out: Vec<u8> = Vec::new();
    (x - y).serialize_compressed(&mut out).unwrap();
    Fr { bytes: out }
}

/// Relies on `ark_ff` scalar multiplication over the BLS12-381 scalar field.
#[verifier::external_body]
pub(crate) fn fr_mul(a: &Fr, b: &Fr) -> (r: Fr)
    ensures
        r@ == fr_mul_of(a@, b@),
        fr_decodes(r@),
{
    let x = ark_bls12_381::Fr::deserialize_compressed(&a.bytes[..])
        .unwrap_or(ark_bls12_381::Fr::from(0u64));
    let y = ark_bls12_381::Fr::deserialize_compressed(&b.bytes[..])
        .unwrap_or(ark_bls12_381::Fr::from(0u64));
    let mut out: Vec<u8> = Vec::new();
    (x * y).serialize_compressed(&mut out).unwrap();
    Fr { bytes: out }
}

/// Relies on `ark_ff::Field::inverse`: `None` exactly on the zero scalar.
#[verifier::external_body]
pub(crate) fn fr_inverse(a: &Fr) -> (r: Option<Fr>)
    ensures
        (r is None) == fr_is_zero_of(a@),
        r matches Some(x) ==> x@ == fr_inverse_of(a@),
        r matches Some(x) ==> fr_decodes(x@),
{
    let x = ark_bls12_381::Fr::deserialize_compressed(&a.bytes[..])
        .unwrap_or(ark_bls12_381::Fr::from(0u64));
    match x.inverse() {
        None => None,
        Some(inv) => {
            let mut out: Vec<u8> = Vec::new();
            inv.serialize_compressed(&mut out).unwrap();
            Some(Fr { bytes: out })
        },
    }
}

/// Relies on the `ark_ff` embedding of small integers into the scalar
/// field; zero maps to the zero scalar.
#[verifier::external_body]
pub(crate) fn fr_from_u64(n: u64) -> (r: Fr)
    ensures
        r@ == fr_of_u64(n),
        fr_is_zero_of(r@) == (n == 0),
        fr_decodes(r@),
{
    let x = ark_bls12_381::Fr::from(n);
    let mut out: Vec<u8> = Vec::new();
    x.serialize_compressed(&mut out).unwrap();
    Fr { bytes: out }
}

/// Relies on `ark_std::UniformRand` for the scalar field: a scalar drawn
/// from the given generator.  Nothing is promised of the value.
#[verifier::external_body]
pub(crate) fn fr_random(rng: &mut rand::rngs::StdRng) -> (r: Fr)
    ensures
        fr_decodes(r@),
{
    let x = <ark_bls12_381::Fr as ark_std::UniformRand>::rand(rng);
    let mut out: Vec<u8> = Vec::new();
    x.serialize_compressed(&mut out).unwrap();
    Fr { bytes: out }
}

/// Relies on `ark_serialize` scalar decoding: succeeds exactly when the
/// bytes begin with a canonical encoding (trailing bytes are not
/// rejected), and returns the bytes it was given.
#[verifier::external_body]
pub fn fr_from_bytes(b: &[u8]) -> (r: Option<Fr>)
    ensures
        (r is Some) == fr_decodes(b@),
        r matches Some(x) ==> x@ == b@,
{
    match ark_bls12_381::Fr::deserialize_compressed(b) {
        Ok(_) => Some(Fr { bytes: b.to_vec() }),
        Err(_) => None,
    }
}

/// Relies on `ark_poly::Radix2EvaluationDomain`: the group generator of
/// the radix-2 domain of the given size.
#[verifier::external_body]
pub(crate) fn domain_generator(n: u64) -> (r: Fr)
    requires
        is_pow2(n as nat),
        n <= MAX_DOMAIN_SIZE,
    ensures
        r@ == domain_generator_of(n),
        fr_decodes(r@),
        !fr_is_zero_of(r@),
{
    let d = ark_poly::Radix2EvaluationDomain::<ark_bls12_381::Fr>::new(n as usize).unwrap();
    let mut out: Vec<u8> = Vec::new();
    d.group_gen.serialize_compressed(&mut out).unwrap();
    Fr { bytes: out }
}

/// Relies on `ark_poly` radix-2 FFT evaluation: the values over the
/// size-`n` domain of the polynomial with the given coefficients.
#[verifier::external_body]
pub(crate) fn fr_fft(coeffs: &Vec<Fr>, n: u64) -> (r: Vec<Fr>)
    requires
        is_pow2(n as nat),
        n <= MAX_DOMAIN_SIZE,
        coeffs@.len() <= n,
    ensures
        frs_view(r@) == fr_fft_of(frs_view(coeffs@), n),
        r@.len() == n,
        forall|i: int| 0 <= i < r@.len() ==> #[trigger] fr_decodes(r@[i]@),
{
    let d = ark_poly::Radix2EvaluationDomain::<ark_bls12_381::Fr>::new(n as usize).unwrap();
    let cs: Vec<ark_bls12_381::Fr> = coeffs
        .iter()
        .map(|c| ark_bls12_381::Fr::deserialize_compressed(&c.bytes[..]).unwrap_or(ark_bls12_381::Fr::from(0u64)))
        .collect();
    d.fft(&cs)
        .iter()
        .map(|v| {
            let mut out: Vec<u8> = Vec::new();
            v.serialize_compressed(&mut out).unwrap();
            Fr { bytes: out }
        })
        .collect()
}

// ----------------------------------------------------------------------
// G1 wrappers.
// ----------------------------------------------------------------------

/// Relies on `ark_ec` scalar multiplication of the fixed G1 base point.
#[verifier::external_body]
pub(crate) fn g1_mul_generator(s: &Fr) -> (r: G1)
    ensures
        r@ == g1_base_pow_of(s@),
        g1_decodes(r@),
{
    let k = ark_bls12_381::Fr::deserialize_compressed(&s.bytes[..])
        .unwrap_or(ark_bls12_381::Fr::from(0u64));
    let p = ark_bls12_381::G1Affine::generator().mul_bigint(k.into_bigint()).into_affine();
    let mut out: Vec<u8> = Vec::new();
    p.serialize_compressed(&mut out).unwrap();
    G1 { bytes: out }
}

/// Relies on `ark_ec::AffineRepr::generator` for G1; the generator equals
/// the base point times one.
#[verifier::external_body]
pub(crate) fn g1_generator() -> (r: G1)
    ensures
        r@ == g1_gen_bytes(),
        g1_decodes(r@),
{
    let p = ark_bls12_381::G1Affine::generator();
    let mut out: Vec<u8> = Vec::new();
    p.serialize_compressed(&mut out).unwrap();
    G1 { bytes: out }
}

/// Relies on `ark_ec::AffineRepr::zero` for G1; the identity equals the
/// base point times zero.
#[verifier::external_body]
pub fn g1_zero() -> (r: G1)
    ensures
        r@ == g1_zero_bytes(),
{
    let p = ark_bls12_381::G1Affine::zero();
    let mut out: Vec<u8> = Vec::new();
    p.serialize_compressed(&mut out).unwrap();
    G1 { bytes: out }
}

/// Relies on `ark_ec` G1 point addition.
#[verifier::external_body]
pub(crate) fn g1_add(a: &G1, b: &G1) -> (r: G1)
    ensures
        r@ == g1_add_of(a@, b@),
        g1_decodes(r@),
{
    let x = ark_bls12_381::G1Affine::deserialize_compressed(&a.bytes[..])
        .unwrap_or(ark_bls12_381::G1Affine::zero());
    let y = ark_bls12_381::G1Affine::deserialize_compressed(&b.bytes[..])
        .unwrap_or(ark_bls12_381::G1Affine::zero());
    let p = (x.into_group() + y).into_affine();
    let mut out: Vec<u8> = Vec::new();
    p.serialize_compressed(&mut out).unwrap();
    G1 { bytes: out }
}

/// Relies on `ark_ec` G1 scalar multiplication.
#[verifier::external_body]
pub(crate) fn g1_mul(p: &G1, s: &Fr) -> (r: G1)
    ensures
        r@ == g1_mul_of(p@, s@),
        g1_decodes(r@),
{
    let x = ark_bls12_381::G1Affine::deserialize_compressed(&p.bytes[..])
        .unwrap_or(ark_bls12_381::G1Affine::zero());
    let k = ark_bls12_381::Fr::deserialize_compressed(&s.bytes[..])
        .unwrap_or(ark_bls12_381::Fr::from(0u64));
    let q = x.mul_bigint(k.into_bigint()).into_affine();
    let mut out: Vec<u8> = Vec::new();
    q.serialize_compressed(&mut out).unwrap();
    G1 { bytes: out }
}

/// Relies on `ark_ec` G1 point negation.
#[verifier::external_body]
pub(crate) fn g1_neg(p: &G1) -> (r: G1)
    ensures
        r@ == g1_neg_of(p@),
        g1_decodes(r@),
{
    let x = ark_bls12_381::G1Affine::deserialize_compressed(&p.bytes[..])
        .unwrap_or(ark_bls12_381::G1Affine::zero());
    let q = -x;
    let mut out: Vec<u8> = Vec::new();
    q.serialize_compressed(&mut out).unwrap();
    G1 { bytes: out }
}

/// Relies on `ark_serialize` G1 decoding (curve and subgroup checks
/// included): succeeds exactly when the bytes begin with a canonical
/// encoding (trailing bytes are not rejected), and returns the bytes it
/// was given.
#[verifier::external_body]
pub fn g1_from_bytes(b: &[u8]) -> (r: Option<G1>)
    ensures
        (r is Some) == g1_decodes(b@),
        r matches Some(x) ==> x@ == b@,
{
    match ark_bls12_381::G1Affine::deserialize_compressed(b) {
        Ok(_) => Some(G1 { bytes: b.to_vec() }),
        Err(_) => None,
    }
}

/// Relies on `ark_poly` radix-2 inverse FFT over G1: the coefficient form
/// of the given evaluations.
#[verifier::external_body]
pub(crate) fn g1_ifft(evals: &Vec<G1>) -> (r: Vec<G1>)
    requires
        is_pow2(evals@.len() as nat),
        evals@.len() <= MAX_DOMAIN_SIZE,
    ensures
        g1s_view(r@) == g1_ifft_of(g1s_view(evals@)),
        r@.len() == evals@.len(),
        forall|i: int| 0 <= i < r@.len() ==> #[trigger] g1_decodes(r@[i]@),
{
    let d = ark_poly::Radix2EvaluationDomain::<ark_bls12_381::Fr>::new(evals.len()).unwrap();
    let vs: Vec<ark_bls12_381::G1Projective> = evals
        .iter()
        .map(|p| ark_bls12_381::G1Affine::deserialize_compressed(&p.bytes[..]).unwrap_or(ark_bls12_381::G1Affine::zero()).into_group())
        .collect();
    d.ifft(&vs)
        .iter()
        .map(|v| {
            let mut out: Vec<u8> = Vec::new();
            v.into_affine().serialize_compressed(&mut out).unwrap();
            G1 { bytes: out }
        })
        .collect()
}

// ----------------------------------------------------------------------
// G2 wrappers.
// ----------------------------------------------------------------------

/// Relies on `ark_ec` scalar multiplication of the fixed G2 base point.
#[verifier::external_body]
pub(crate) fn g2_mul_generator(s: &Fr) -> (r: G2)
    ensures
        r@ == g2_base_pow_of(s@),
        g2_decodes(r@),
{
    let k = ark_bls12_381::Fr::deserialize_compressed(&s.bytes[..])
        .unwrap_or(ark_bls12_381::Fr::from(0u64));
    let p = ark_bls12_381::G2Affine::generator().mul_bigint(k.into_bigint()).into_affine();
    let mut out: Vec<u8> = Vec::new();
    p.serialize_compressed(&mut out).unwrap();
    G2 { bytes: out }
}

/// Relies on `ark_ec::AffineRepr::generator` for G2; the generator equals
/// the base point times one.
#[verifier::external_body]
pub(crate) fn g2_generator() -> (r: G2)
    ensures
        r@ == g2_gen_bytes(),
        g2_decodes(r@),
{
    let p = ark_bls12_381::G2Affine::generator();
    let mut out: Vec<u8> = Vec::new();
    p.serialize_compressed(&mut out).unwrap();
    G2 { bytes: out }
}

/// Relies on `ark_ec` G2 point addition.
#[verifier::external_body]
pub(crate) fn g2_add(a: &G2, b: &G2) -> (r: G2)
    ensures
        r@ == g2_add_of(a@, b@),
        g2_decodes(r@),
{
    let x = ark_bls12_381::G2Affine::deserialize_compressed(&a.bytes[..])
        .unwrap_or(ark_bls12_381::G2Affine::zero());
    let y = ark_bls12_381::G2Affine::deserialize_compressed(&b.bytes[..])
        .unwrap_or(ark_bls12_381::G2Affine::zero());
    let p = (x.into_group() + y).into_affine();
    let mut out: Vec<u8> = Vec::new();
    p.serialize_compressed(&mut out).unwrap();
    G2 { bytes: out }
}

/// Relies on `ark_ec` G2 scalar multiplication.
#[verifier::external_body]
pub(crate) fn g2_mul(p: &G2, s: &Fr) -> (r: G2)
    ensures
        r@ == g2_mul_of(p@, s@),
        g2_decodes(r@),
{
    let x = ark_bls12_381::G2Affine::deserialize_compressed(&p.bytes[..])
        .unwrap_or(ark_bls12_381::G2Affine::zero());
    let k = ark_bls12_381::Fr::deserialize_compressed(&s.bytes[..])
        .unwrap_or(ark_bls12_381::Fr::from(0u64));
    let q = x.mul_bigint(k.into_bigint()).into_affine();
    let mut out: Vec<u8> = Vec::new();
    q.serialize_compressed(&mut out).unwrap();
    G2 { bytes: out }
}

/// Relies on `ark_ec` G2 point negation.
#[verifier::external_body]
pub(crate) fn g2_neg(p: &G2) -> (r: G2)
    ensures
        r@ == g2_neg_of(p@),
        g2_decodes(r@),
{
    let x = ark_bls12_381::G2Affine::deserialize_compressed(&p.bytes[..])
        .unwrap_or(ark_bls12_381::G2Affine::zero());
    let q = -x;
    let mut out: Vec<u8> = Vec::new();
    q.serialize_compressed(&mut out).unwrap();
    G2 { bytes: out }
}

/// Relies on `ark_serialize` G2 decoding (curve and subgroup checks
/// included): succeeds exactly when the bytes begin with a canonical
/// encoding (trailing bytes are not rejected), and returns the bytes it
/// was given.
#[verifier::external_body]
pub fn g2_from_bytes(b: &[u8]) -> (r: Option<G2>)
    ensures
        (r is Some) == g2_decodes(b@),
        r matches Some(x) ==> x@ == b@,
{
    match ark_bls12_381::G2Affine::deserialize_compressed(b) {
        Ok(_) => Some(G2 { bytes: b.to_vec() }),
        Err(_) => None,
    }
}

// ----------------------------------------------------------------------
// Pairing and target group wrappers.
// ----------------------------------------------------------------------

/// Relies on `ark_ec::pairing::Pairing::pairing` for BLS12-381.
#[verifier::external_body]
pub(crate) fn pairing(p: &G1, q: &G2) -> (r: Gt)
    ensures
        r@ == pairing_of(p@, q@),
        gt_decodes(r@),
{
    let x = ark_bls12_381::G1Affine::deserialize_compressed(&p.bytes[..])
        .unwrap_or(ark_bls12_381::G1Affine::zero());
    let y = ark_bls12_381::G2Affine::deserialize_compressed(&q.bytes[..])
        .unwrap_or(ark_bls12_381::G2Affine::zero());
    let t = ark_bls12_381::Bls12_381::pairing(x, y);
    let mut out: Vec<u8> = Vec::new();
    t.0.serialize_compressed(&mut out).unwrap();
    Gt { bytes: out }
}

/// Relies on `ark_ff` multiplication in the degree-twelve extension field
/// carrying the target group.
#[verifier::external_body]
pub(crate) fn gt_mul(a: &Gt, b: &Gt) -> (r: Gt)
    ensures
        r@ == gt_mul_of(a@, b@),
        gt_decodes(r@),
{
    let x = ark_bls12_381::Fq12::deserialize_compressed(&a.bytes[..])
        .unwrap_or(ark_bls12_381::Fq12::ONE);
    let y = ark_bls12_381::Fq12::deserialize_compressed(&b.bytes[..])
        .unwrap_or(ark_bls12_381::Fq12::ONE);
    let mut out: Vec<u8> = Vec::new();
    (x * y).serialize_compressed(&mut out).unwrap();
    Gt { bytes: out }
}

/// Relies on `ark_ff::Field::pow` in the degree-twelve extension field.
#[verifier::external_body]
pub(crate) fn gt_pow(a: &Gt, s: &Fr) -> (r: Gt)
    ensures
        r@ == gt_pow_of(a@, s@),
        gt_decodes(r@),
{
    let x = ark_bls12_381::Fq12::deserialize_compressed(&a.bytes[..])
        .unwrap_or(ark_bls12_381::Fq12::ONE);
    let k = ark_bls12_381::Fr::deserialize_compressed(&s.bytes[..])
        .unwrap_or(ark_bls12_381::Fr::from(0u64));
    let mut out: Vec<u8> = Vec::new();
    x.pow(k.into_bigint()).serialize_compressed(&mut out).unwrap();
    Gt { bytes: out }
}

/// Relies on `ark_serialize` decoding of the extension field: succeeds
/// exactly when the bytes begin with a canonical encoding (trailing
/// bytes are not rejected), and returns the bytes it was given.
#[verifier::external_body]
pub fn gt_from_bytes(b: &[u8]) -> (r: Option<Gt>)
    ensures
        (r is Some) == gt_decodes(b@),
        r matches Some(x) ==> x@ == b@,
{
    match ark_bls12_381::Fq12::deserialize_compressed(b) {
        Ok(_) => Some(Gt { bytes: b.to_vec() }),
        Err(_) => None,
    }
}

/// Relies on the `ark_ec` IETF hash-to-curve construction for G2
/// (Weierstrass map with SHA-256 field hashing); the result depends on
/// the message alone.  The construction is fixed here, and neither its
/// setup nor hashing fails for it.
#[verifier::external_body]
pub(crate) fn hash_to_g2(message: &[u8]) -> (r: G2)
    ensures
        r@ == hash_to_g2_of(message@),
        g2_decodes(r@),
{
    let hasher = ark_ec::hashing::map_to_curve_hasher::MapToCurveBasedHasher::<
        ark_bls12_381::G2Projective,
        ark_ff::field_hashers::DefaultFieldHasher<sha2::Sha256, 128>,
        ark_ec::hashing::curve_maps::wb::WBMap<ark_bls12_381::g2::Config>,
    >::new(b"").unwrap();
    let p = hasher.hash(message).unwrap();
    let mut out: Vec<u8> = Vec::new();
    p.serialize_compressed(&mut out).unwrap();
    G2 { bytes: out }
}

// ----------------------------------------------------------------------
// Byte plumbing, fully verified.
// ----------------------------------------------------------------------

/// A fresh copy of a byte vector.
pub fn copy_bytes(v: &Vec<u8>) -> (r: Vec<u8>)
    ensures
        r@ == v@,
{
    let mut out: Vec<u8> = Vec::new();
    let mut i: usize = 0;
    while i < v.len()
        invariant
            i <= v@.len(),
            out@ == v@.subrange(0, i as int),
        decreases v@.len() - i,
    {
        out.push(v[i]);
        i = i + 1;
    }
    assert(out@ == v@);
    out
}

/// Whether two byte vectors hold the same bytes.
pub fn bytes_eq(a: &Vec<u8>, b: &Vec<u8>) -> (r: bool)
    ensures
        r == (a@ == b@),
{
    if a.len() != b.len() {
        assert(a@ != b@);
        return false;
    }
    let mut i: usize = 0;
    while i < a.len()
        invariant
            i <= a@.len(),
            a@.len() == b@.len(),
            forall|j: int| 0 <= j < i ==> a@[j] == b@[j],
        decreases a@.len() - i,
    {
        if a[i] != b[i] {
            return false;
        }
        i = i + 1;
    }
    assert(a@ =~= b@);
    true
}

impl Fr {
    /// The canonical encoding of this scalar.
    pub fn to_bytes(&self) -> (r: Vec<u8>)
        ensures
            r@ == self@,
    {
        copy_bytes(&self.bytes)
    }

    /// A fresh scalar holding the same encoding.
    pub fn dup(&self) -> (r: Fr)
        ensures
            r@ == self@,
    {
        Fr { bytes: copy_bytes(&self.bytes) }
    }

    /// Whether this scalar's encoding equals the other's.
    pub fn equals(&self, other: &Fr) -> (r: bool)
        ensures
            r == (self@ == other@),
    {
        bytes_eq(&self.bytes, &other.bytes)
    }
}

impl G1 {
    /// The canonical encoding of this point.
    pub fn to_bytes(&self) -> (r: Vec<u8>)
        ensures
            r@ == self@,
    {
        copy_bytes(&self.bytes)
    }

    /// A fresh point holding the same encoding.
    pub fn dup(&self) -> (r: G1)
        ensures
            r@ == self@,
    {
        G1 { bytes: copy_bytes(&self.bytes) }
    }

    /// Whether this point's encoding equals the other's.
    pub fn equals(&self, other: &G1) -> (r: bool)
        ensures
            r == (self@ == other@),
    {
        bytes_eq(&self.bytes, &other.bytes)
    }
}

impl G2 {
    /// The canonical encoding of this point.
    pub fn to_bytes(&self) -> (r: Vec<u8>)
        ensures
            r@ == self@,
    {
        copy_bytes(&self.bytes)
    }

    /// A fresh point holding the same encoding.
    pub fn dup(&self) -> (r: G2)
        ensures
            r@ == self@,
    {
        G2 { bytes: copy_bytes(&self.bytes) }
    }

    /// Whether this point's encoding equals the other's.
    pub fn equals(&self, other: &G2) -> (r: bool)
        ensures
            r == (self@ == other@),
    {
        bytes_eq(&self.bytes, &other.bytes)
    }
}

impl Gt {
    /// The canonical encoding of this element.
    pub fn to_bytes(&self) -> (r: Vec<u8>)
        ensures
            r@ == self@,
    {
        copy_bytes(&self.bytes)
    }

    /// A fresh element holding the same encoding.
    pub fn dup(&self) -> (r: Gt)
        ensures
            r@ == self@,
    {
        Gt { bytes: copy_bytes(&self.bytes) }
    }

    /// Whether this element's encoding equals the other's.
    pub fn equals(&self, other: &Gt) -> (r: bool)
        ensures
            r == (self@ == other@),
    {
        bytes_eq(&self.bytes, &other.bytes)
    }
}

/// The zero scalar.
pub fn fr_zero() -> (r: Fr)
    ensures
        r@ == fr_of_u64(0),
        fr_is_zero_of(r@),
{
    fr_from_u64(0)
}

/// The scalar one.
pub fn fr_one() -> (r: Fr)
    ensures
        r@ == fr_of_u64(1),
        !fr_is_zero_of(r@),
{
    fr_from_u64(1)
}

/// The identity of G1: the base point times zero.
pub fn g1_identity() -> (r: G1)
    ensures
        r@ == g1_zero_bytes(),
        g1_decodes(r@),
{
    let zero = fr_zero();
    g1_mul_generator(&zero)
}

/// An external random generator, opaque to the verifier.
#[verifier::external_type_specification]
#[verifier::external_body]
pub struct ExStdRng(rand::rngs::StdRng);

} // verus!
