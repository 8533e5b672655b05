use accumulator::Accumulator;
use accumulator::Coefficient;
use accumulator::Deletion;
use accumulator::Element;
use accumulator::Error;
use accumulator::MembershipWitness;
use accumulator::PublicKey;
use accumulator::SecretKey;
use accumulator::UpdatePolynomials;
use bls12_381_plus::G1Projective;
use bls12_381_plus::Scalar;
use std::time::Instant;

fn init(upd_size: usize) -> (SecretKey, PublicKey, Accumulator, Vec<Element>) {
    let key = SecretKey::new(b"1234567890");
    let pubkey = PublicKey::from_secret(&key);
    let mut elements = vec![Element::one(); upd_size];
    for i in 0..upd_size {
        elements[i] = Element::hash(i.to_string().as_bytes());
    }
    let acc = Accumulator::from_seed(b"accumulator-test-seed");
    (key, pubkey, acc, elements)
}

// Plays the issuer: removes `deletions` from the accumulator in one batch
// (using the trapdoor) and returns the coefficients of the batch's update
// polynomial Omega(x) = sum_s (prod_{i<s} (y_i - x)) * V_s, where V_s is the
// accumulator value after the s-th removal.
fn issuer_batch_remove(
    key: &SecretKey,
    acc: &mut Accumulator,
    deletions: &[Element],
) -> Vec<Coefficient> {
    let alpha = key.0;
    let m = deletions.len();
    // coefficients of p(x) = prod_{i<s} (y_i - x), updated as s grows
    let mut p: Vec<Scalar> = vec![Scalar::ONE];
    // c = prod_{i<=s} 1/(y_i + alpha), so that V_s = c * V_0
    let mut c = Scalar::ONE;
    let mut o: Vec<Scalar> = vec![Scalar::ZERO; m];
    for s in 0..m {
        let ys = deletions[s].0;
        c *= (ys + alpha).invert().unwrap();
        for j in 0..p.len() {
            o[j] += p[j] * c;
        }
        let mut np = vec![Scalar::ZERO; p.len() + 1];
        for j in 0..p.len() {
            np[j] += ys * p[j];
            np[j + 1] -= p[j];
        }
        p = np;
    }
    let v0: G1Projective = acc.0;
    let omegas: Vec<Coefficient> = o.iter().map(|s| Coefficient(v0 * s)).collect();
    acc.0 = v0 * c;
    omegas
}

fn issuer_batch_polys(
    key: &SecretKey,
    acc: &mut Accumulator,
    deletions: &[Element],
) -> UpdatePolynomials {
    let omegas = issuer_batch_remove(key, acc, deletions);
    UpdatePolynomials { deletions: deletions.to_vec(), omegas }
}

fn wit_sequential_update(upd_size: usize) {
    let (key, pubkey, mut acc, elements) = init(upd_size + 1);

    // Non revoked (y, C) pair
    let elem = elements[0];
    let mut wit = MembershipWitness::new(&elem, acc, &key);

    // Revoked (y, C) pair
    let elem_d = elements[1];
    let mut wit_d = MembershipWitness::new(&elem_d, acc, &key);

    // Revoke everyone except for elem
    let dels = &elements[1..upd_size];
    let mut deletions: Vec<Deletion> = Vec::new();
    for &d in dels {
        acc.remove_assign(&key, d);
        deletions.push(Deletion(acc, d));
    }

    // Update non-revoked element
    let t = Instant::now();
    wit.update_assign(elem, deletions.as_slice());
    let t = t.elapsed();

    // Try update revoked elem
    wit_d.update_assign(elem_d, deletions.as_slice());

    assert!(wit.verify(elem, pubkey, acc));
    assert!(!wit.verify(elem_d, pubkey, acc));

    println!("Sequential update of {} deletions: {:?}", deletions.len(), t);
}

fn wit_batch_update(upd_size: usize) {
    let (key, pubkey, mut acc, elements) = init(upd_size);

    // Non revoked (y, wit) pair
    let y = elements[0];
    let mut wit = MembershipWitness::new(&y, acc, &key);

    // Revoked (y_d, wit_d) pair
    let y_d = elements[1];
    let mut wit_d = MembershipWitness::new(&y_d, acc, &key);

    // Revoke y_1, ..., y_(upd_size-1) and compute coefficients for batch update
    let deletions = &elements[1..];
    let coefficients = issuer_batch_remove(&key, &mut acc, deletions);

    // Update non-revoked element with both versions
    let mut wit2 = wit.clone();
    let t1 = Instant::now();
    wit.batch_update_assign(y, deletions, &coefficients).expect("Error when evaluating poly");
    let t1 = t1.elapsed();
    let t2 = Instant::now();
    wit2._batch_update_assign(y, deletions, &coefficients).expect("Error when evaluating poly");
    let t2 = t2.elapsed();

    // Try updating revoked element
    let _ = wit_d.batch_update_assign(y_d, deletions, &coefficients);

    // Check (non)revocation of updated witness
    assert!(!wit_d.verify(y_d, pubkey, acc));
    assert!(wit.verify(y, pubkey, acc));

    println!("Batch update of {} deletions without MSM: {:?}", deletions.len(), t2);
    println!("Batch update of {} deletions with MSM: {:?}", deletions.len(), t1);
}

// Test sequential and batch updates
#[test]
fn wit_test_update() {
    let upd_size = 101;
    wit_sequential_update(upd_size);
    wit_batch_update(upd_size);
}

// Test serialization
#[test]
fn wit_test_serialize() {
    // Init parameters
    let sk = SecretKey::new(b"test");
    let acc = Accumulator::from_seed(b"serialize-accumulator");
    let wit = MembershipWitness::new(&Element::hash(b"test"), acc, &sk);

    // Try serialize and deserialize through the compressed encoding
    let bytes = wit.to_bytes();
    let wit = MembershipWitness::from_bytes(&bytes).expect("Deserialization error");

    // Check witness verifies
    assert!(wit.verify(Element::hash(b"test"), PublicKey::from_secret(&sk), acc))
}

// For a fixed accumulator trajectory, sequential update over m single
// deletions and batch update over the equivalent size-m batch yield the
// same witness, and both verify.
#[test]
fn sequential_and_batch_updates_agree() {
    let (key, pubkey, acc0, elements) = init(9);
    let y = elements[0];
    let wit0 = MembershipWitness::new(&y, acc0, &key);

    // sequential trajectory of single deletions
    let mut acc_seq = acc0;
    let mut dels: Vec<Deletion> = Vec::new();
    for &d in &elements[1..] {
        acc_seq.remove_assign(&key, d);
        dels.push(Deletion(acc_seq, d));
    }
    let wit_seq = wit0.update(y, &dels);

    // one batch over the same trajectory
    let mut acc_batch = acc0;
    let polys = issuer_batch_polys(&key, &mut acc_batch, &elements[1..]);
    let wit_batch = wit0.batch_update(y, &polys.deletions, &polys.omegas).unwrap();

    assert_eq!(acc_seq, acc_batch);
    assert_eq!(wit_seq, wit_batch);
    assert!(wit_seq.verify(y, pubkey, acc_seq));
    assert!(wit_batch.verify(y, pubkey, acc_batch));
}

// Aggregating k ordered batches matches applying the single-batch update
// k times in the same order.
#[test]
fn aggregation_matches_repeated_batches() {
    let (key, pubkey, mut acc, elements) = init(13);
    let y = elements[0];
    let wit0 = MembershipWitness::new(&y, acc, &key);

    let mut polys = Vec::new();
    polys.push(issuer_batch_polys(&key, &mut acc, &elements[1..5]));
    polys.push(issuer_batch_polys(&key, &mut acc, &elements[5..9]));
    polys.push(issuer_batch_polys(&key, &mut acc, &elements[9..13]));

    let mut wit_aggr = wit0;
    assert!(wit_aggr.batch_update_aggr_assign(y, &polys).is_ok());

    let mut wit_rep = wit0;
    for p in &polys {
        wit_rep.batch_update_assign(y, &p.deletions, &p.omegas).unwrap();
    }

    assert_eq!(wit_aggr, wit_rep);
    assert!(wit_aggr.verify(y, pubkey, acc));
}

// The optimized multi-scalar-multiplication path and the reference
// term-by-term path return identical witnesses.
#[test]
fn msm_and_direct_evaluation_agree() {
    let (key, _pubkey, mut acc, elements) = init(6);
    let y = elements[0];
    let mut w1 = MembershipWitness::new(&y, acc, &key);
    let mut w2 = w1;
    let polys = issuer_batch_polys(&key, &mut acc, &elements[1..]);
    let r1 = w1.batch_update_assign(y, &polys.deletions, &polys.omegas).unwrap();
    let r2 = w2._batch_update_assign(y, &polys.deletions, &polys.omegas).unwrap();
    assert_eq!(r1, r2);
    assert_eq!(w1, w2);
}

// An element contained in the batch is reported as revoked, on the batch
// path and on the aggregation path, and the witness is left untouched.
#[test]
fn revoked_element_is_reported() {
    let (key, _pubkey, mut acc, elements) = init(4);
    let y = elements[1];
    let mut wit = MembershipWitness::new(&y, acc, &key);
    let before = wit;
    let polys = issuer_batch_polys(&key, &mut acc, &elements[1..]);

    let res = wit.batch_update_assign(y, &polys.deletions, &polys.omegas);
    assert_eq!(res, Err(Error::RevokedElement));
    assert_eq!(wit, before);

    let mut wit2 = before;
    let res2 = wit2.batch_update_aggr_assign(y, std::slice::from_ref(&polys));
    assert_eq!(res2, Err(Error::RevokedElement));
    assert_eq!(wit2, before);
}

// Coefficients that do not fit the batch are a distinct evaluation error.
#[test]
fn mismatched_coefficients_are_rejected() {
    let (key, _pubkey, mut acc, elements) = init(4);
    let y = elements[0];
    let mut wit = MembershipWitness::new(&y, acc, &key);
    let polys = issuer_batch_polys(&key, &mut acc, &elements[1..]);

    let mut short = polys.omegas.clone();
    short.pop();
    assert_eq!(
        wit.batch_update_assign(y, &polys.deletions, &short),
        Err(Error::PolynomialEvaluationFailure)
    );

    let empty_d: Vec<Element> = Vec::new();
    let empty_o: Vec<Coefficient> = Vec::new();
    assert_eq!(
        wit.batch_update_assign(y, &empty_d, &empty_o),
        Err(Error::PolynomialEvaluationFailure)
    );
}

// Decoding the encoding gives the witness back; invalid bytes fail with a
// decoding error.
#[test]
fn encoding_round_trip() {
    let (key, _pubkey, acc, elements) = init(2);
    let wit = MembershipWitness::new(&elements[0], acc, &key);
    let bytes = wit.to_bytes();
    assert_eq!(MembershipWitness::from_bytes(&bytes), Ok(wit));

    let bad = [0xffu8; 48];
    assert_eq!(MembershipWitness::from_bytes(&bad), Err(Error::DecodingFailure));
}

// A sequential update that meets the holder's own deletion stops there and
// leaves a witness that no longer verifies.
#[test]
fn sequential_update_stops_at_revocation() {
    let (key, pubkey, mut acc, elements) = init(4);
    let y = elements[1];
    let mut wit = MembershipWitness::new(&y, acc, &key);
    let mut dels: Vec<Deletion> = Vec::new();
    for &d in &elements[1..] {
        acc.remove_assign(&key, d);
        dels.push(Deletion(acc, d));
    }
    let before = wit;
    wit.update_assign(y, &dels);
    assert_eq!(wit, before);
    assert!(!wit.verify(y, pubkey, acc));
}

const ADD_SIZE: usize = 1001;

fn enroll() -> (SecretKey, PublicKey, Accumulator, Vec<Element>, Vec<MembershipWitness>) {
    let key = SecretKey::new(b"issuer-seed");
    let pubkey = PublicKey::from_secret(&key);
    let acc = Accumulator::from_seed(b"issuer-accumulator");
    let mut elems = Vec::with_capacity(ADD_SIZE);
    let mut wits = Vec::with_capacity(ADD_SIZE);
    for i in 0..ADD_SIZE {
        let e = Element::hash(i.to_string().as_bytes());
        elems.push(e);
        wits.push(MembershipWitness::new(&e, acc, &key));
    }
    (key, pubkey, acc, elems, wits)
}

#[test]
fn holder_single_update() {
    // Setup issuer side and enroll ADD_SIZE holders
    let (key, pubkey, mut acc, elems, mut wits) = enroll();

    // Delete one of the elements and compute the update polynomials
    let polys = issuer_batch_polys(&key, &mut acc, &elems[1..2]);

    // Check non-revoked holder is invalid before updating and is valid after updating
    assert!(!wits[0].verify(elems[0], pubkey, acc));
    let t = Instant::now();
    assert!(wits[0].batch_update_assign(elems[0], &polys.deletions, &polys.omegas).is_ok());
    let t = t.elapsed();
    assert!(wits[0].verify(elems[0], pubkey, acc));
    println!("Time to update witness using polys after single update: {:?}", t);

    // Check revoked holder is always invalid
    assert!(!wits[1].verify(elems[1], pubkey, acc));
    assert!(wits[1].batch_update_assign(elems[1], &polys.deletions, &polys.omegas).is_err());
    assert!(!wits[1].verify(elems[1], pubkey, acc));
}

#[test]
fn holder_batch_update() {
    // Setup issuer side and enroll ADD_SIZE holders
    let (key, pubkey, mut acc, elems, mut wits) = enroll();

    // Delete all but the first element in one batch and compute the update polynomials
    let polys = issuer_batch_polys(&key, &mut acc, &elems[1..]);

    // Check non-revoked holder is invalid before updating and is valid after updating
    assert!(!wits[0].verify(elems[0], pubkey, acc));
    let t = Instant::now();
    let res = wits[0].batch_update_assign(elems[0], &polys.deletions, &polys.omegas);
    let t = t.elapsed();
    assert!(res.is_ok() && wits[0].verify(elems[0], pubkey, acc));
    println!(
        "Time to update witness after {} revocations in single batch: {:?}",
        polys.deletions.len(),
        t
    );

    // Check revoked holder is always invalid
    assert!(!wits[1].verify(elems[1], pubkey, acc));
    assert!(wits[1].batch_update_assign(elems[1], &polys.deletions, &polys.omegas).is_err());
    assert!(!wits[1].verify(elems[1], pubkey, acc));
}

#[test]
fn holder_multiple_batch_update() {
    // Setup issuer side and enroll ADD_SIZE holders
    let (key, pubkey, mut acc, elems, mut wits) = enroll();

    let mut polys = Vec::new();

    // Delete one of the elements and compute its update polynomials
    polys.push(issuer_batch_polys(&key, &mut acc, &elems[1..2]));

    // Delete the rest in chunks, one update polynomial batch per chunk
    const CHUNK_SIZE: usize = 100;
    for chunk in elems[1..].chunks(CHUNK_SIZE) {
        polys.push(issuer_batch_polys(&key, &mut acc, chunk));
    }

    // Check non-revoked holder is invalid before updating and is valid after updating
    assert!(!wits[0].verify(elems[0], pubkey, acc));
    let t = Instant::now();
    let res = wits[0].batch_update_aggr_assign(elems[0], &polys);
    let t = t.elapsed();
    assert!(res.is_ok() && wits[0].verify(elems[0], pubkey, acc));
    println!(
        "Time to update witness after {} revocations in {} batches of {} elements: {:?}",
        ADD_SIZE - 1,
        polys.len(),
        CHUNK_SIZE,
        t
    );

    // Check revoked holder is always invalid
    assert!(!wits[1].verify(elems[1], pubkey, acc));
    assert!(wits[1].batch_update_aggr_assign(elems[1], &polys).is_err());
    assert!(!wits[1].verify(elems[1], pubkey, acc));
}
