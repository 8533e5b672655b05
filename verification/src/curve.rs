//! The narrow trusted interface to the BLS12-381 arithmetic of
//! `bls12_381_plus`: scalar field operations, curve point operations, one
//! multi-scalar multiplication, the pairing equation, and point encoding.
//! Everything above this module is verified against the contracts here.

use vstd::prelude::*;

verus! {

use bls12_381_plus::G1Projective;
use bls12_381_plus::G2Projective;
use bls12_381_plus::Scalar;

#[verifier::external_type_specification]
#[verifier::external_body]
pub struct ExScalar(Scalar);

#[verifier::external_type_specification]
#[verifier::external_body]
pub struct ExG1Projective(G1Projective);

#[verifier::external_type_specification]
#[verifier::external_body]
pub struct ExG2Projective(G2Projective);

pub uninterp spec fn spec_scalar_from_u64(v: u64) -> Scalar;

pub uninterp spec fn spec_scalar_add(a: Scalar, b: Scalar) -> Scalar;

pub uninterp spec fn spec_scalar_sub(a: Scalar, b: Scalar) -> Scalar;

pub uninterp spec fn spec_scalar_mul(a: Scalar, b: Scalar) -> Scalar;

pub uninterp spec fn spec_scalar_invert(a: Scalar) -> Scalar;

pub uninterp spec fn spec_hash_to_scalar(data: Seq<u8>) -> Scalar;

pub uninterp spec fn spec_g1_add(a: G1Projective, b: G1Projective) -> G1Projective;

pub uninterp spec fn spec_g1_sub(a: G1Projective, b: G1Projective) -> G1Projective;

pub uninterp spec fn spec_g1_scale(p: G1Projective, s: Scalar) -> G1Projective;

pub uninterp spec fn spec_g1_mul_gen(s: Scalar) -> G1Projective;

pub uninterp spec fn spec_g2_mul_gen(s: Scalar) -> G2Projective;

pub uninterp spec fn spec_g1_compress(p: G1Projective) -> Seq<u8>;

pub uninterp spec fn spec_g1_decompress(b: Seq<u8>) -> Option<G1Projective>;

pub uninterp spec fn spec_pairing_check(
    w: G1Projective,
    y: Scalar,
    pk: G2Projective,
    acc: G1Projective,
) -> bool;

/// The zero of the scalar field, as the embedding of the integer zero.
pub open spec fn scalar_zero() -> Scalar {
    spec_scalar_from_u64(0)
}

/// The one of the scalar field, as the embedding of the integer one.
pub open spec fn scalar_one() -> Scalar {
    spec_scalar_from_u64(1)
}

/// Relies on `Scalar::from(u64)`: embeds a small integer into the scalar
/// field; the result is a function of the integer alone.
#[verifier::external_body]
pub(crate) fn scalar_from_u64(v: u64) -> (r: Scalar)
    ensures
        r == spec_scalar_from_u64(v),
{
    Scalar::from(v)
}

/// Relies on `Scalar::add`: field addition.
#[verifier::external_body]
pub(crate) fn scalar_add(a: &Scalar, b: &Scalar) -> (r: Scalar)
    ensures
        r == spec_scalar_add(*a, *b),
{
    *a + *b
}

/// Relies on `Scalar::sub`: field subtraction; in a field, a difference is
/// zero exactly when the operands are equal.
#[verifier::external_body]
pub(crate) fn scalar_sub(a: &Scalar, b: &Scalar) -> (r: Scalar)
    ensures
        r == spec_scalar_sub(*a, *b),
        (r == scalar_zero()) <==> (*a == *b),
{
    *a - *b
}

/// Relies on `Scalar::mul`: multiplication in the prime field of order r;
/// a prime field has no zero divisors, so a product is zero exactly when a
/// factor is.
#[verifier::external_body]
pub(crate) fn scalar_mul(a: &Scalar, b: &Scalar) -> (r: Scalar)
    ensures
        r == spec_scalar_mul(*a, *b),
        (r == scalar_zero()) <==> (*a == scalar_zero() || *b == scalar_zero()),
{
    *a * *b
}

/// Relies on `Scalar::invert`: returns the multiplicative inverse for a
/// nonzero element and fails exactly on zero.
#[verifier::external_body]
pub(crate) fn scalar_invert(a: &Scalar) -> (r: Option<Scalar>)
    ensures
        (r is Some) <==> *a != scalar_zero(),
        r matches Some(v) ==> v == spec_scalar_invert(*a),
{
    let t = a.invert();
    if bool::from(t.is_some()) {
        Some(t.unwrap())
    } else {
        None
    }
}

/// Relies on `sha2::Sha384` and `Scalar::from_okm`: hash-to-field over the
/// input bytes, reducing the 48-byte digest into the field; the result
/// depends on the bytes alone.
#[verifier::external_body]
pub(crate) fn hash_to_scalar(data: &[u8]) -> (r: Scalar)
    ensures
        r == spec_hash_to_scalar(data@),
{
    let digest = <sha2::Sha384 as sha2::Digest>::digest(data);
    let mut okm = [0u8; 48];
    okm.copy_from_slice(digest.as_slice());
    Scalar::from_okm(&okm)
}

/// Relies on `G1Projective::add`: curve point addition.
#[verifier::external_body]
pub(crate) fn g1_add(a: &G1Projective, b: &G1Projective) -> (r: G1Projective)
    ensures
        r == spec_g1_add(*a, *b),
{
    *a + *b
}

/// Relies on `G1Projective::sub`: curve point subtraction.
#[verifier::external_body]
pub(crate) fn g1_sub(a: &G1Projective, b: &G1Projective) -> (r: G1Projective)
    ensures
        r == spec_g1_sub(*a, *b),
{
    *a - *b
}

/// Relies on `G1Projective::mul` by a scalar: scalar multiplication of a
/// curve point.
#[verifier::external_body]
pub(crate) fn g1_scale(p: &G1Projective, s: &Scalar) -> (r: G1Projective)
    ensures
        r == spec_g1_scale(*p, *s),
{
    *p * *s
}

/// Relies on `G1Projective::mul` applied to the fixed generator of G1.
#[verifier::external_body]
pub(crate) fn g1_mul_gen(s: &Scalar) -> (r: G1Projective)
    ensures
        r == spec_g1_mul_gen(*s),
{
    G1Projective::GENERATOR * *s
}

/// Relies on `G2Projective::mul` applied to the fixed generator of G2.
#[verifier::external_body]
pub(crate) fn g2_mul_gen(s: &Scalar) -> (r: G2Projective)
    ensures
        r == spec_g2_mul_gen(*s),
{
    G2Projective::GENERATOR * *s
}

/// The weighted sum of curve points Σᵢ scalars[i]·points[i], folded from the
/// first term; both evaluation paths of a batch update are proved equal to it.
pub open spec fn spec_sum_terms(ps: Seq<G1Projective>, ss: Seq<Scalar>) -> G1Projective
    recommends
        ps.len() == ss.len(),
        ps.len() >= 1,
    decreases ps.len(),
{
    if ps.len() <= 1 {
        spec_g1_scale(ps[0], ss[0])
    } else {
        spec_g1_add(
            spec_sum_terms(ps.drop_last(), ss.drop_last()),
            spec_g1_scale(ps.last(), ss.last()),
        )
    }
}

/// Relies on `G1Projective::sum_of_products`: one multi-scalar
/// multiplication computing Σᵢ scalars[i]·points[i].
#[verifier::external_body]
pub(crate) fn g1_sum_of_products(points: &Vec<G1Projective>, scalars: &Vec<Scalar>) -> (r:
    G1Projective)
    requires
        points@.len() == scalars@.len(),
        points@.len() >= 1,
    ensures
        r == spec_sum_terms(points@, scalars@),
{
    G1Projective::sum_of_products(points.as_slice(), scalars.as_slice())
}

/// Relies on `multi_miller_loop` and `final_exponentiation`: returns true
/// exactly when e(w, y·G₂ + pk) == e(acc, G₂), evaluated as one combined
/// pairing tested for identity in the target group.
#[verifier::external_body]
pub(crate) fn pairing_check(
    w: &G1Projective,
    y: &Scalar,
    pk: &G2Projective,
    acc: &G1Projective,
) -> (r: bool)
    ensures
        r == spec_pairing_check(*w, *y, *pk, *acc),
{
    let mut p = G2Projective::GENERATOR;
    p *= *y;
    p += *pk;
    let g2 = bls12_381_plus::G2Affine::from(G2Projective::GENERATOR);
    let gt = bls12_381_plus::multi_miller_loop(
        &[
            (&bls12_381_plus::G1Affine::from(w), &bls12_381_plus::G2Prepared::from(
                bls12_381_plus::G2Affine::from(p),
            )),
            (&bls12_381_plus::G1Affine::from(acc), &bls12_381_plus::G2Prepared::from(-g2)),
        ],
    ).final_exponentiation();
    bool::from(<bls12_381_plus::Gt as group::Group>::is_identity(&gt))
}

/// Relies on `G1Affine::to_compressed`: the 48-byte canonical compressed
/// encoding of a point; decoding that encoding yields the point back.
#[verifier::external_body]
pub(crate) fn g1_compress(p: &G1Projective) -> (r: [u8; 48])
    ensures
        r@ == spec_g1_compress(*p),
        spec_g1_decompress(r@) == Some(*p),
{
    p.to_compressed()
}

/// Relies on `G1Affine::from_compressed`: decodes the canonical compressed
/// encoding, failing on non-canonical bytes and on points off the curve or
/// outside the prime-order subgroup.
#[verifier::external_body]
pub(crate) fn g1_decompress(b: &[u8; 48]) -> (r: Option<G1Projective>)
    ensures
        r == spec_g1_decompress(b@),
{
    let t = G1Projective::from_compressed(b);
    if bool::from(t.is_some()) {
        Some(t.unwrap())
    } else {
        None
    }
}

} // verus!
