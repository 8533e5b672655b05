//! The accumulated set's commitment and the values that move through it:
//! hashed identifiers (elements), the accumulator point itself, and the
//! published coefficients of a batch's update polynomial.

use vstd::prelude::*;

verus! {

use bls12_381_plus::G1Projective;
use bls12_381_plus::Scalar;

use crate::curve::g1_mul_gen;
use crate::curve::g1_scale;
use crate::curve::hash_to_scalar;
use crate::curve::scalar_add;
use crate::curve::scalar_from_u64;
use crate::curve::scalar_invert;
use crate::curve::scalar_one;
use crate::curve::scalar_zero;
use crate::curve::spec_g1_mul_gen;
use crate::curve::spec_g1_scale;
use crate::curve::spec_hash_to_scalar;
use crate::curve::spec_scalar_add;
use crate::curve::spec_scalar_invert;
use crate::key::SecretKey;

/// A scalar field value standing for one accumulated identifier.
#[derive(Clone, Copy, Debug, PartialEq, Eq)]
pub struct Element(pub Scalar);

/// One coordinate of a batch's update polynomial, represented in G1.
#[derive(Clone, Copy, Debug, PartialEq, Eq)]
pub struct Coefficient(pub G1Projective);

/// The commitment to the set of currently non-revoked elements: a G1 point,
/// mutated only by the issuer, compared by value, encoded in compressed form.
#[derive(Clone, Copy, Debug, PartialEq, Eq)]
pub struct Accumulator(pub G1Projective);

impl Element {
    /// Hash an identifier to a field element.
    pub fn hash(d: &[u8]) -> (r: Self)
        ensures
            r.0 == spec_hash_to_scalar(d@),
    {
        Element(hash_to_scalar(d))
    }

    /// The element holding the field's one.
    pub fn one() -> (r: Self)
        ensures
            r.0 == scalar_one(),
    {
        Element(scalar_from_u64(1))
    }
}

/// The accumulator after removing element `y` under trapdoor `alpha`: the
/// point scaled by the inverse of `y + alpha`. The inverse does not exist
/// only in the degenerate case `y + alpha == 0`, where the value is kept.
pub open spec fn spec_remove(v: G1Projective, alpha: Scalar, y: Scalar) -> G1Projective {
    if spec_scalar_add(y, alpha) == scalar_zero() {
        v
    } else {
        spec_g1_scale(v, spec_scalar_invert(spec_scalar_add(y, alpha)))
    }
}

impl Accumulator {
    /// A fresh accumulator value derived from a seed: the hash of the seed
    /// times the G1 generator.
    pub fn from_seed(seed: &[u8]) -> (r: Self)
        ensures
            r.0 == spec_g1_mul_gen(spec_hash_to_scalar(seed@)),
    {
        let s = hash_to_scalar(seed);
        Accumulator(g1_mul_gen(&s))
    }

    /// The accumulator with `y` removed (issuer-only: requires the trapdoor).
    pub fn remove(&self, sk: &SecretKey, y: Element) -> (r: Self)
        ensures
            r.0 == spec_remove(self.0, sk.0, y.0),
    {
        let mut c = *self;
        c.remove_assign(sk, y);
        c
    }

    /// Remove `y` in place (issuer-only: requires the trapdoor).
    pub fn remove_assign(&mut self, sk: &SecretKey, y: Element)
        ensures
            final(self).0 == spec_remove(old(self).0, sk.0, y.0),
    {
        let s = scalar_add(&y.0, &sk.0);
        match scalar_invert(&s) {
            Some(i) => {
                self.0 = g1_scale(&self.0, &i);
            },
            None => {},
        }
    }
}

} // verus!
