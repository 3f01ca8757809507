//! Note values and value commitments.

use ff::PrimeField;
use group::GroupEncoding;
use pasta_curves::arithmetic::CurveExt;
use rand::rngs::StdRng;
use rand::SeedableRng;

use tachyon::constants::NOTE_VALUE_MAX;
use tachyon::error::EncodingError;
use tachyon::note::Value;
use tachyon::value::{Commitment, CommitmentTrapdoor};

/// NOTE_VALUE_MAX must be accepted (the boundary is inclusive).
#[test]
fn value_accepts_max() {
    let val = Value::new(NOTE_VALUE_MAX).unwrap();
    assert_eq!(val.to_u64(), NOTE_VALUE_MAX);
}

/// Anything above NOTE_VALUE_MAX must be rejected.
#[test]
fn value_rejects_overflow() {
    let r = Value::new(NOTE_VALUE_MAX + 1);
    assert_eq!(r.unwrap_err(), EncodingError::NoteValueOverflow);
}

/// v + (-v) = 0 in the scalar field regardless of sign encoding: the two
/// balance commitments cancel to the identity point.
#[test]
fn signed_to_scalar_negation_cancels() {
    let pos = Commitment::balance(42);
    let neg = Commitment::balance(-42);
    let sum = pos.add(neg);
    assert_eq!(sum.to_bytes(), [0u8; 32]);
}

/// balance(0) must be the identity point: the value component has scalar
/// zero and there is no randomness component.
#[test]
fn balance_zero_is_identity() {
    assert_eq!(Commitment::balance(0).to_bytes(), [0u8; 32]);
}

/// The binding property: cv_a + cv_b - balance(a+b) = [rcv_a + rcv_b]R.
/// The value components cancel, leaving only the randomness component.
#[test]
fn commit_homomorphic_binding_property() {
    let mut rng = StdRng::seed_from_u64(0);
    let rcv_a = CommitmentTrapdoor::random(&mut rng);
    let cv_a = rcv_a.commit(100);
    let rcv_b = CommitmentTrapdoor::random(&mut rng);
    let cv_b = rcv_b.commit(200);

    let remainder = cv_a.add(cv_b).sub(Commitment::balance(300));

    let a = pasta_curves::Fq::from_repr(rcv_a.to_bytes()).unwrap();
    let b = pasta_curves::Fq::from_repr(rcv_b.to_bytes()).unwrap();
    let r_gen = pasta_curves::pallas::Point::hash_to_curve("z.cash:Orchard-cv")(b"r");
    let expected = r_gen * (a + b);
    assert_eq!(remainder.to_bytes(), expected.to_bytes());
}

/// A commitment is the Pedersen combination [v]V + [rcv]R of the two
/// hash-to-curve generators, recomputed here directly.
#[test]
fn commit_matches_pedersen() {
    let mut rng = StdRng::seed_from_u64(7);
    let rcv = CommitmentTrapdoor::random(&mut rng);
    let cv = rcv.commit(-5);

    let v_gen = pasta_curves::pallas::Point::hash_to_curve("z.cash:Orchard-cv")(b"v");
    let r_gen = pasta_curves::pallas::Point::hash_to_curve("z.cash:Orchard-cv")(b"r");
    let scalar = -pasta_curves::Fq::from(5u64);
    let trapdoor = pasta_curves::Fq::from_repr(rcv.to_bytes()).unwrap();
    let expected = v_gen * scalar + r_gen * trapdoor;
    assert_eq!(cv.to_bytes(), expected.to_bytes());
}

/// Non-canonical field encodings and invalid point encodings are rejected
/// at the boundary with the matching error.
#[test]
fn invalid_encodings_are_rejected() {
    let bad = [0xffu8; 32];
    assert_eq!(
        CommitmentTrapdoor::from_bytes(bad).unwrap_err(),
        EncodingError::InvalidFieldElement
    );
    assert_eq!(Commitment::from_bytes(bad).unwrap_err(), EncodingError::InvalidPoint);
    assert!(tachyon::Anchor::from_bytes(bad).is_err());
    // The canonical encoding of one is accepted everywhere.
    let mut one = [0u8; 32];
    one[0] = 1;
    assert!(CommitmentTrapdoor::from_bytes(one).is_ok());
    assert!(tachyon::Anchor::from_bytes(one).is_ok());
}
