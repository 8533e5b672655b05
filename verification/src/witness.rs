//! Membership witnesses and their whole lifecycle: construction, sequential
//! update over single deletions, amortized batch update over a batch's
//! update polynomial, aggregation of several batches, verification, and the
//! fixed-size compressed encoding.

use vstd::prelude::*;

verus! {

use bls12_381_plus::G1Projective;
use bls12_381_plus::Scalar;

use crate::accumulator::Accumulator;
use crate::accumulator::Coefficient;
use crate::accumulator::Element;
use crate::accumulator::spec_remove;
use crate::curve::g1_compress;
use crate::curve::g1_decompress;
use crate::curve::g1_add;
use crate::curve::g1_scale;
use crate::curve::g1_sub;
use crate::curve::g1_sum_of_products;
use crate::curve::pairing_check;
use crate::curve::scalar_from_u64;
use crate::curve::scalar_invert;
use crate::curve::scalar_mul;
use crate::curve::scalar_one;
use crate::curve::scalar_sub;
use crate::curve::scalar_zero;
use crate::curve::spec_g1_compress;
use crate::curve::spec_g1_decompress;
use crate::curve::spec_g1_scale;
use crate::curve::spec_g1_sub;
use crate::curve::spec_pairing_check;
use crate::curve::spec_scalar_invert;
use crate::curve::spec_scalar_mul;
use crate::curve::spec_scalar_sub;
use crate::curve::spec_sum_terms;
use crate::key::PublicKey;
use crate::key::SecretKey;
use crate::Error;

/// One published revocation: the accumulator value right after the removal,
/// paired with the removed element.
#[derive(Clone, Copy, Debug, PartialEq, Eq)]
pub struct Deletion(pub Accumulator, pub Element);

/// One batch's published update data: the deleted elements and the matching
/// coefficients of the batch's update polynomial, in order, equally long.
#[derive(Clone, Debug)]
pub struct UpdatePolynomials {
    pub deletions: Vec<Element>,
    pub omegas: Vec<Coefficient>,
}

/// A membership witness: the G1 point bound to one holder's element that
/// makes the verification pairing hold against the current accumulator.
#[derive(Clone, Copy, Debug, PartialEq, Eq)]
pub struct MembershipWitness(pub G1Projective);

/// The divided-difference product dD(y) = Π (y_i − y) over a batch's
/// deleted elements; zero exactly when y is one of them. A batch of one
/// reduces to the single difference.
pub open spec fn spec_dd(dels: Seq<Element>, y: Scalar) -> Scalar
    recommends
        dels.len() >= 1,
    decreases dels.len(),
{
    if dels.len() <= 1 {
        spec_scalar_sub(dels[0].0, y)
    } else {
        spec_scalar_mul(spec_dd(dels.drop_last(), y), spec_scalar_sub(dels.last().0, y))
    }
}

/// y appears among a batch's deleted elements: the holder was revoked there.
pub open spec fn spec_batch_revoked(y: Element, dels: Seq<Element>) -> bool {
    exists|j: int| 0 <= j < dels.len() && dels[j].0 == y.0
}

/// The declared coefficients fit the batch: one per deletion, at least one.
pub open spec fn spec_batch_shape_ok(dels: Seq<Element>, omegas: Seq<Coefficient>) -> bool {
    dels.len() >= 1 && omegas.len() == dels.len()
}

/// The i-th power of y, with the zeroth power the field's one.
pub open spec fn spec_power(y: Scalar, i: nat) -> Scalar
    decreases i,
{
    if i == 0 {
        scalar_one()
    } else {
        spec_scalar_mul(spec_power(y, (i - 1) as nat), y)
    }
}

/// The successive powers 1, y, y², … as a sequence of length n.
pub open spec fn spec_powers_seq(y: Scalar, n: nat) -> Seq<Scalar> {
    Seq::new(n, |i: int| spec_power(y, i as nat))
}

/// The G1 points carried by a sequence of coefficients.
pub open spec fn spec_omega_points(omegas: Seq<Coefficient>) -> Seq<G1Projective> {
    Seq::new(omegas.len(), |i: int| omegas[i].0)
}

/// The update polynomial evaluated at y: ⟨Υ_y, Ω⟩ = Σ omega_i · yⁱ.
pub open spec fn spec_eval_omega(omegas: Seq<Coefficient>, y: Scalar) -> G1Projective
    recommends
        omegas.len() >= 1,
{
    spec_sum_terms(spec_omega_points(omegas), spec_powers_seq(y, omegas.len()))
}

/// The witness after one whole batch: W ← dD(y)⁻¹ · (W − ⟨Υ_y, Ω⟩).
pub open spec fn spec_batch_new_w(
    w: G1Projective,
    y: Element,
    dels: Seq<Element>,
    omegas: Seq<Coefficient>,
) -> G1Projective {
    spec_g1_scale(spec_g1_sub(w, spec_eval_omega(omegas, y.0)), spec_scalar_invert(spec_dd(dels, y.0)))
}

/// What a batch update returns: revocation of y dominates, then a shape
/// mismatch between deletions and coefficients, else the updated point.
pub open spec fn spec_batch_result(
    w: G1Projective,
    y: Element,
    dels: Seq<Element>,
    omegas: Seq<Coefficient>,
) -> Result<G1Projective, Error> {
    if spec_batch_revoked(y, dels) {
        Err(Error::RevokedElement)
    } else if !spec_batch_shape_ok(dels, omegas) {
        Err(Error::PolynomialEvaluationFailure)
    } else {
        Ok(spec_batch_new_w(w, y, dels, omegas))
    }
}

/// The witness after sequential deletions, in publication order: each step
/// is W ← (y_d − y)⁻¹ · (W − V'), stopping at the first deletion of y
/// itself and leaving the witness as it stood then.
pub open spec fn spec_seq_update(w: G1Projective, y: Scalar, dels: Seq<Deletion>) -> G1Projective
    decreases dels.len(),
{
    if dels.len() == 0 {
        w
    } else if spec_scalar_sub(dels[0].1.0, y) == scalar_zero() {
        w
    } else {
        spec_seq_update(
            spec_g1_scale(
                spec_g1_sub(w, dels[0].0.0),
                spec_scalar_invert(spec_scalar_sub(dels[0].1.0, y)),
            ),
            y,
            dels.drop_first(),
        )
    }
}

/// The result of aggregating batches in order: apply the single-batch
/// update once per batch, stopping at the first batch that fails. This
/// definition is the law that aggregation over k batches matches the
/// single-batch update applied k times.
pub open spec fn spec_aggr_result(
    w: G1Projective,
    y: Element,
    polys: Seq<UpdatePolynomials>,
) -> Result<G1Projective, Error>
    decreases polys.len(),
{
    if polys.len() == 0 {
        Ok(w)
    } else {
        match spec_batch_result(w, y, polys[0].deletions@, polys[0].omegas@) {
            Ok(w1) => spec_aggr_result(w1, y, polys.drop_first()),
            Err(e) => Err(e),
        }
    }
}

/// The witness state after aggregating batches in order: the batches before
/// the first failing one are applied, the rest are not.
pub open spec fn spec_aggr_state(
    w: G1Projective,
    y: Element,
    polys: Seq<UpdatePolynomials>,
) -> G1Projective
    decreases polys.len(),
{
    if polys.len() == 0 {
        w
    } else {
        match spec_batch_result(w, y, polys[0].deletions@, polys[0].omegas@) {
            Ok(w1) => spec_aggr_state(w1, y, polys.drop_first()),
            Err(_) => w,
        }
    }
}

/// Evaluates dD(y) = Π (y_i − y) over the batch's deleted elements, and
/// knows when the product is zero: exactly when some y_i equals y.
fn dd_eval(values: &[Element], y: &Scalar) -> (r: Scalar)
    requires
        values@.len() >= 1,
    ensures
        r == spec_dd(values@, *y),
        (r == scalar_zero()) <==> spec_batch_revoked(Element(*y), values@),
{
    let mut acc = scalar_sub(&values[0].0, y);
    let mut i: usize = 1;
    while i < values.len()
        invariant
            1 <= i <= values@.len(),
            acc == spec_dd(values@.take(i as int), *y),
            (acc == scalar_zero()) <==> (exists|j: int|
                0 <= j < i && values@[j].0 == *y),
        decreases values@.len() - i,
    {
        let f = scalar_sub(&values[i].0, y);
        acc = scalar_mul(&acc, &f);
        proof {
            assert(values@.take(i + 1).drop_last() =~= values@.take(i as int));
            assert(values@.take(i + 1).last() == values@[i as int]);
        }
        i += 1;
    }
    proof {
        assert(values@.take(values@.len() as int) =~= values@);
    }
    acc
}

/// Evaluates ⟨Υ_y, Ω⟩ by one multi-scalar multiplication over the whole
/// batch: the dominant cost of a batch update, independent of the holder.
fn eval_omega_msm(omega: &[Coefficient], y: &Scalar) -> (r: G1Projective)
    requires
        omega@.len() >= 1,
    ensures
        r == spec_eval_omega(omega@, *y),
{
    let mut points: Vec<G1Projective> = Vec::new();
    let mut scalars: Vec<Scalar> = Vec::new();
    let mut pow = scalar_from_u64(1);
    let mut i: usize = 0;
    while i < omega.len()
        invariant
            0 <= i <= omega@.len(),
            points@.len() == i,
            scalars@.len() == i,
            forall|k: int| 0 <= k < i ==> points@[k] == omega@[k].0,
            forall|k: int| 0 <= k < i ==> scalars@[k] == spec_power(*y, k as nat),
            pow == spec_power(*y, i as nat),
        decreases omega@.len() - i,
    {
        points.push(omega[i].0);
        scalars.push(pow);
        pow = scalar_mul(&pow, y);
        i += 1;
    }
    proof {
        assert(points@ =~= spec_omega_points(omega@));
        assert(scalars@ =~= spec_powers_seq(*y, omega@.len() as nat));
    }
    g1_sum_of_products(&points, &scalars)
}

/// Evaluates ⟨Υ_y, Ω⟩ term by term, without the multi-scalar
/// multiplication: the reference path, kept for cross-validation and proved
/// to return the very value the optimized path returns.
pub fn eval_omega_direct(omega: &[Coefficient], y: &Scalar) -> (r: G1Projective)
    requires
        omega@.len() >= 1,
    ensures
        r == spec_eval_omega(omega@, *y),
{
    let ghost pts = spec_omega_points(omega@);
    let ghost pows = spec_powers_seq(*y, omega@.len() as nat);
    let mut pow = scalar_from_u64(1);
    let mut acc = g1_scale(&omega[0].0, &pow);
    let mut i: usize = 1;
    while i < omega.len()
        invariant
            1 <= i <= omega@.len(),
            pts == spec_omega_points(omega@),
            pows == spec_powers_seq(*y, omega@.len() as nat),
            pow == spec_power(*y, (i - 1) as nat),
            acc == spec_sum_terms(pts.take(i as int), pows.take(i as int)),
        decreases omega@.len() - i,
    {
        pow = scalar_mul(&pow, y);
        let term = g1_scale(&omega[i].0, &pow);
        acc = g1_add(&acc, &term);
        proof {
            assert(pts.take(i + 1).drop_last() =~= pts.take(i as int));
            assert(pows.take(i + 1).drop_last() =~= pows.take(i as int));
            assert(pts.take(i + 1).last() == omega@[i as int].0);
            assert(pows.take(i + 1).last() == spec_power(*y, i as nat));
        }
        i += 1;
    }
    proof {
        assert(pts.take(omega@.len() as int) =~= pts);
        assert(pows.take(omega@.len() as int) =~= pows);
    }
    acc
}

impl MembershipWitness {
    /// Construct the witness for `value` against `accumulator` (issuer-only:
    /// requires the trapdoor): the accumulator with `value` removed.
    pub fn new(value: &Element, accumulator: Accumulator, secret_key: &SecretKey) -> (r: Self)
        ensures
            r.0 == spec_remove(accumulator.0, secret_key.0, value.0),
    {
        MembershipWitness(accumulator.remove(secret_key, *value).0)
    }

    /// Sequential witness update over single deletions, returning the new
    /// witness; the held witness is untouched.
    pub fn update(&self, y: Element, del: &[Deletion]) -> (r: Self)
        ensures
            r.0 == spec_seq_update(self.0, y.0, del@),
    {
        let mut c = *self;
        c.update_assign(y, del);
        c
    }

    /// Sequential witness update in place: one inversion and one scalar
    /// multiplication per deletion, stopping at the first deletion of `y`
    /// itself (the holder was just revoked; callers must treat this as
    /// permanent and follow with verification).
    pub fn update_assign(&mut self, y: Element, del: &[Deletion])
        ensures
            final(self).0 == spec_seq_update(old(self).0, y.0, del@),
    {
        proof {
            assert(del@.skip(0) =~= del@);
        }
        let mut i: usize = 0;
        while i < del.len()
            invariant
                0 <= i <= del@.len(),
                spec_seq_update(old(self).0, y.0, del@) == spec_seq_update(
                    self.0,
                    y.0,
                    del@.skip(i as int),
                ),
            decreases del@.len() - i,
        {
            proof {
                assert(del@.skip(i as int)[0] == del@[i as int]);
                assert(del@.skip(i as int).drop_first() =~= del@.skip(i + 1));
            }
            let inv = scalar_sub(&del[i].1.0, &y.0);
            match scalar_invert(&inv) {
                None => {
                    return ;
                },
                Some(t) => {
                    self.0 = g1_sub(&self.0, &del[i].0.0);
                    self.0 = g1_scale(&self.0, &t);
                },
            }
            i += 1;
        }
        proof {
            assert(del@.skip(del@.len() as int) =~= Seq::<Deletion>::empty());
        }
    }

    /// Batch update over one batch, returning the new witness; the held
    /// witness is untouched.
    pub fn batch_update(&self, y: Element, deletions: &[Element], omega: &[Coefficient]) -> (r:
        Result<MembershipWitness, Error>)
        ensures
            r matches Ok(m) ==> spec_batch_result(self.0, y, deletions@, omega@) == Ok::<
                G1Projective,
                Error,
            >(m.0),
            r matches Err(e) ==> spec_batch_result(self.0, y, deletions@, omega@) == Err::<
                G1Projective,
                Error,
            >(e),
    {
        let mut c = *self;
        c.batch_update_assign(y, deletions, omega)
    }

    /// Batch update in place: O(1) inversions and a single multi-scalar
    /// multiplication however large the batch. Reports `RevokedElement`
    /// exactly when `y` is among the batch's deletions (the witness is then
    /// left untouched), `PolynomialEvaluationFailure` exactly when the
    /// coefficients do not fit the batch.
    pub fn batch_update_assign(
        &mut self,
        y: Element,
        deletions: &[Element],
        omega: &[Coefficient],
    ) -> (r: Result<MembershipWitness, Error>)
        ensures
            r matches Ok(m) ==> spec_batch_result(old(self).0, y, deletions@, omega@) == Ok::<
                G1Projective,
                Error,
            >(m.0) && final(self).0 == m.0,
            r matches Err(e) ==> spec_batch_result(old(self).0, y, deletions@, omega@) == Err::<
                G1Projective,
                Error,
            >(e) && final(self).0 == old(self).0,
    {
        if deletions.len() == 0 {
            return Err(Error::PolynomialEvaluationFailure);
        }
        let d_d = dd_eval(deletions, &y.0);
        let d_inv = match scalar_invert(&d_d) {
            None => {
                return Err(Error::RevokedElement);
            },
            Some(t) => t,
        };
        if omega.len() != deletions.len() {
            return Err(Error::PolynomialEvaluationFailure);
        }
        let v = eval_omega_msm(omega, &y.0);
        self.0 = g1_sub(&self.0, &v);
        self.0 = g1_scale(&self.0, &d_inv);
        Ok(*self)
    }

    /// The batch update with the reference term-by-term evaluation in place
    /// of the multi-scalar multiplication: result-identical by contract,
    /// kept only for cross-validation.
    pub fn _batch_update_assign(
        &mut self,
        y: Element,
        deletions: &[Element],
        coefficients: &[Coefficient],
    ) -> (r: Result<MembershipWitness, Error>)
        ensures
            r matches Ok(m) ==> spec_batch_result(old(self).0, y, deletions@, coefficients@)
                == Ok::<G1Projective, Error>(m.0) && final(self).0 == m.0,
            r matches Err(e) ==> spec_batch_result(old(self).0, y, deletions@, coefficients@)
                == Err::<G1Projective, Error>(e) && final(self).0 == old(self).0,
    {
        if deletions.len() == 0 {
            return Err(Error::PolynomialEvaluationFailure);
        }
        let d_d = dd_eval(deletions, &y.0);
        let d_inv = match scalar_invert(&d_d) {
            None => {
                return Err(Error::RevokedElement);
            },
            Some(t) => t,
        };
        if coefficients.len() != deletions.len() {
            return Err(Error::PolynomialEvaluationFailure);
        }
        let v = eval_omega_direct(coefficients, &y.0);
        self.0 = g1_sub(&self.0, &v);
        self.0 = g1_scale(&self.0, &d_inv);
        Ok(*self)
    }

    /// Aggregate several batches in publication order: equivalent to the
    /// single-batch update applied once per batch, each batch evaluated
    /// against the witness as it stood after the batches before it, and
    /// stopping at the first batch that fails.
    pub fn batch_update_aggr_assign(&mut self, y: Element, polys: &[UpdatePolynomials]) -> (r:
        Result<MembershipWitness, Error>)
        ensures
            final(self).0 == spec_aggr_state(old(self).0, y, polys@),
            r matches Ok(m) ==> spec_aggr_result(old(self).0, y, polys@) == Ok::<
                G1Projective,
                Error,
            >(m.0) && m.0 == final(self).0,
            r matches Err(e) ==> spec_aggr_result(old(self).0, y, polys@) == Err::<
                G1Projective,
                Error,
            >(e),
    {
        proof {
            assert(polys@.skip(0) =~= polys@);
        }
        let mut i: usize = 0;
        while i < polys.len()
            invariant
                0 <= i <= polys@.len(),
                spec_aggr_result(old(self).0, y, polys@) == spec_aggr_result(
                    self.0,
                    y,
                    polys@.skip(i as int),
                ),
                spec_aggr_state(old(self).0, y, polys@) == spec_aggr_state(
                    self.0,
                    y,
                    polys@.skip(i as int),
                ),
            decreases polys@.len() - i,
        {
            proof {
                assert(polys@.skip(i as int)[0] == polys@[i as int]);
                assert(polys@.skip(i as int).drop_first() =~= polys@.skip(i + 1));
            }
            match self.batch_update_assign(
                y,
                polys[i].deletions.as_slice(),
                polys[i].omegas.as_slice(),
            ) {
                Ok(_) => {},
                Err(e) => {
                    return Err(e);
                },
            }
            i += 1;
        }
        proof {
            assert(polys@.skip(polys@.len() as int) =~= Seq::<UpdatePolynomials>::empty());
        }
        Ok(*self)
    }

    /// Replace the held point with an externally provided one.
    pub fn apply_update(&mut self, new_wit: G1Projective)
        ensures
            final(self).0 == new_wit,
    {
        self.0 = new_wit;
    }

    /// True exactly when the pairing equation
    /// e(W, y·G₂ + pk) == e(accumulator, G₂) holds: `y` is committed in the
    /// accumulator and this witness proves it. One combined pairing, no
    /// value-dependent branching.
    pub fn verify(&self, y: Element, pubkey: PublicKey, accumulator: Accumulator) -> (r: bool)
        ensures
            r == spec_pairing_check(self.0, y.0, pubkey.0, accumulator.0),
    {
        pairing_check(&self.0, &y.0, &pubkey.0, &accumulator.0)
    }

    /// The fixed-size compressed encoding of the witness point; decoding it
    /// gives this witness back.
    pub fn to_bytes(&self) -> (r: [u8; 48])
        ensures
            r@ == spec_g1_compress(self.0),
            spec_g1_decompress(r@) == Some(self.0),
    {
        g1_compress(&self.0)
    }

    /// Decode a witness from its compressed encoding; fails with
    /// `DecodingFailure` exactly on bytes that are not the canonical
    /// encoding of a point of the right subgroup.
    pub fn from_bytes(bytes: &[u8; 48]) -> (r: Result<Self, Error>)
        ensures
            r matches Ok(m) ==> spec_g1_decompress(bytes@) == Some(m.0),
            r matches Err(e) ==> spec_g1_decompress(bytes@) is None && e
                == Error::DecodingFailure,
    {
        match g1_decompress(bytes) {
            Some(p) => Ok(MembershipWitness(p)),
            None => Err(Error::DecodingFailure),
        }
    }
}

/// Law: an element contained in a batch's deletion set is reported as
/// revoked by the batch update, whatever the coefficients; the witness is
/// never updated for it.
pub proof fn lemma_revocation_exclusion(
    w: G1Projective,
    y: Element,
    dels: Seq<Element>,
    omegas: Seq<Coefficient>,
)
    requires
        spec_batch_revoked(y, dels),
    ensures
        spec_batch_result(w, y, dels, omegas) == Err::<G1Projective, Error>(
            Error::RevokedElement,
        ),
{
}

/// Law: adding one more batch at the end of an aggregation is the same as
/// aggregating the earlier batches and then applying the single-batch
/// update once — aggregation over k ordered batches matches the
/// single-batch update applied k times in the same order.
pub proof fn lemma_aggregate_snoc(
    w: G1Projective,
    y: Element,
    polys: Seq<UpdatePolynomials>,
    p: UpdatePolynomials,
)
    ensures
        spec_aggr_result(w, y, polys.push(p)) == (match spec_aggr_result(w, y, polys) {
            Ok(wk) => spec_batch_result(wk, y, p.deletions@, p.omegas@),
            Err(e) => Err(e),
        }),
    decreases polys.len(),
{
    if polys.len() == 0 {
        assert(polys.push(p)[0] == p);
        assert(polys.push(p).drop_first() =~= Seq::<UpdatePolynomials>::empty());
        match spec_batch_result(w, y, p.deletions@, p.omegas@) {
            Ok(w1) => {
                assert(spec_aggr_result(w1, y, polys.push(p).drop_first()) == Ok::<
                    G1Projective,
                    Error,
                >(w1));
            },
            Err(_) => {},
        }
        assert(spec_aggr_result(w, y, polys) == Ok::<G1Projective, Error>(w));
    } else {
        assert(polys.push(p)[0] == polys[0]);
        assert(polys.push(p).drop_first() =~= polys.drop_first().push(p));
        match spec_batch_result(w, y, polys[0].deletions@, polys[0].omegas@) {
            Ok(w1) => {
                lemma_aggregate_snoc(w1, y, polys.drop_first(), p);
                assert(spec_aggr_result(w, y, polys.push(p)) == spec_aggr_result(
                    w1,
                    y,
                    polys.drop_first().push(p),
                ));
                assert(spec_aggr_result(w, y, polys) == spec_aggr_result(
                    w1,
                    y,
                    polys.drop_first(),
                ));
            },
            Err(_) => {},
        }
    }
}

} // verus!
