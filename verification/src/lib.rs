//! Pairing-based cryptographic accumulator: compact membership witnesses
//! that holders refresh after revocations, either one deletion at a time or
//! in amortized batches driven by issuer-published update polynomials.

use vstd::prelude::*;

pub mod accumulator;
pub mod curve;
pub mod key;
pub mod witness;

pub use accumulator::Accumulator;
pub use accumulator::Coefficient;
pub use accumulator::Element;
pub use key::PublicKey;
pub use key::SecretKey;
pub use witness::Deletion;
pub use witness::MembershipWitness;
pub use witness::UpdatePolynomials;

verus! {

/// The explicit failures of witness maintenance: revocation of the holder's
/// own element, malformed update polynomials, and undecodable witness bytes.
#[derive(Clone, Copy, Debug, PartialEq, Eq, Structural)]
pub enum Error {
    /// The holder's element was among the applied deletions; permanent.
    RevokedElement,
    /// The coefficients do not match the batch (e.g. a degree mismatch).
    PolynomialEvaluationFailure,
    /// The bytes do not decode to a valid witness point.
    DecodingFailure,
}

} // verus!
