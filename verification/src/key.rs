//! Issuer key material: the trapdoor scalar and the matching public key in
//! G2 that the verification pairing consumes.

use vstd::prelude::*;

verus! {

use bls12_381_plus::G2Projective;
use bls12_381_plus::Scalar;

use crate::curve::g2_mul_gen;
use crate::curve::hash_to_scalar;
use crate::curve::spec_g2_mul_gen;
use crate::curve::spec_hash_to_scalar;

/// The issuer's trapdoor: a scalar derived from a seed. Witness construction
/// and accumulator removal require it; holder-facing operations never do.
#[derive(Clone, Copy, Debug)]
pub struct SecretKey(pub Scalar);

/// The issuer's public key: the trapdoor lifted to G2, used only inside the
/// verification pairing.
#[derive(Clone, Copy, Debug)]
pub struct PublicKey(pub G2Projective);

impl SecretKey {
    /// Derive the trapdoor scalar from a seed by hash-to-field.
    pub fn new(seed: &[u8]) -> (r: Self)
        ensures
            r.0 == spec_hash_to_scalar(seed@),
    {
        SecretKey(hash_to_scalar(seed))
    }
}

impl PublicKey {
    /// The public key matching a trapdoor: the trapdoor times the G2
    /// generator.
    pub fn from_secret(sk: &SecretKey) -> (r: Self)
        ensures
            r.0 == spec_g2_mul_gen(sk.0),
    {
        PublicKey(g2_mul_gen(&sk.0))
    }
}

} // verus!
