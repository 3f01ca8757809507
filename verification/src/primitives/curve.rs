//! Pallas curve points as 32-byte compressed encodings, and the two
//! hash-to-curve value-commitment generators.
//!
//! The generators `V` (value) and `R` (randomness) are derived by
//! hash-to-curve under the domain `"z.cash:Orchard-cv"` from the inputs
//! `"v"` and `"r"`; `R` is also the basepoint of the RedPallas `Binding`
//! parameterization, which is what lets the binding signature open the
//! Pedersen commitment.

use ff::PrimeField;
use group::GroupEncoding;
use pasta_curves::arithmetic::CurveExt;
use vstd::prelude::*;

use crate::primitives::field::spec_fq_canonical;

verus! {

/// Whether 32 bytes are a valid compressed encoding of a Pallas point, that
/// is, whether `pallas::Point::from_bytes` accepts them.
pub uninterp spec fn spec_point_valid(bytes: Seq<u8>) -> bool;

/// The compressed encoding of the sum of the two points given by their
/// valid encodings.
pub uninterp spec fn spec_point_add(a: Seq<u8>, b: Seq<u8>) -> Seq<u8>;

/// The compressed encoding of the difference of the two points given by
/// their valid encodings.
pub uninterp spec fn spec_point_sub(a: Seq<u8>, b: Seq<u8>) -> Seq<u8>;

/// The compressed encoding of `[s]V`, the value-commitment value generator
/// multiplied by the scalar with canonical encoding `s`.
pub uninterp spec fn spec_mul_value_base(s: Seq<u8>) -> Seq<u8>;

/// The compressed encoding of `[s]R`, the value-commitment randomness
/// generator multiplied by the scalar with canonical encoding `s`.
pub uninterp spec fn spec_mul_rand_base(s: Seq<u8>) -> Seq<u8>;

/// Relies on `pallas::Point::from_bytes`: it accepts exactly the valid
/// compressed point encodings.
#[verifier::external_body]
pub(crate) fn point_check(bytes: &[u8; 32]) -> (r: bool)
    ensures
        r == spec_point_valid(bytes@),
{
    pasta_curves::pallas::Point::from_bytes(bytes).is_some().into()
}

/// Relies on Pallas point addition in `pasta_curves`: decodes both
/// encodings, adds, re-encodes. An encoding of a point decodes back to it,
/// so the result is valid.
#[verifier::external_body]
pub(crate) fn point_add(a: &[u8; 32], b: &[u8; 32]) -> (r: [u8; 32])
    requires
        spec_point_valid(a@),
        spec_point_valid(b@),
    ensures
        r@ == spec_point_add(a@, b@),
        spec_point_valid(r@),
{
    let p = pasta_curves::pallas::Point::from_bytes(a).unwrap();
    let q = pasta_curves::pallas::Point::from_bytes(b).unwrap();
    (p + q).to_bytes()
}

/// Relies on Pallas point subtraction in `pasta_curves`: decodes both
/// encodings, subtracts, re-encodes.
#[verifier::external_body]
pub(crate) fn point_sub(a: &[u8; 32], b: &[u8; 32]) -> (r: [u8; 32])
    requires
        spec_point_valid(a@),
        spec_point_valid(b@),
    ensures
        r@ == spec_point_sub(a@, b@),
        spec_point_valid(r@),
{
    let p = pasta_curves::pallas::Point::from_bytes(a).unwrap();
    let q = pasta_curves::pallas::Point::from_bytes(b).unwrap();
    (p - q).to_bytes()
}

/// Relies on `pallas::Point::hash_to_curve` and scalar multiplication: the
/// encoding of `[s]V` with `V = hash_to_curve("z.cash:Orchard-cv")("v")`, a
/// function of the canonical scalar encoding alone.
#[verifier::external_body]
pub(crate) fn mul_value_base(s: &[u8; 32]) -> (r: [u8; 32])
    requires
        spec_fq_canonical(s@),
    ensures
        r@ == spec_mul_value_base(s@),
        spec_point_valid(r@),
{
    let scalar = pasta_curves::Fq::from_repr(*s).unwrap();
    let base = pasta_curves::pallas::Point::hash_to_curve("z.cash:Orchard-cv")(&[0x76]);
    (base * scalar).to_bytes()
}

/// Relies on `pallas::Point::hash_to_curve` and scalar multiplication: the
/// encoding of `[s]R` with `R = hash_to_curve("z.cash:Orchard-cv")("r")`, a
/// function of the canonical scalar encoding alone.
#[verifier::external_body]
pub(crate) fn mul_rand_base(s: &[u8; 32]) -> (r: [u8; 32])
    requires
        spec_fq_canonical(s@),
    ensures
        r@ == spec_mul_rand_base(s@),
        spec_point_valid(r@),
{
    let scalar = pasta_curves::Fq::from_repr(*s).unwrap();
    let base = pasta_curves::pallas::Point::hash_to_curve("z.cash:Orchard-cv")(&[0x72]);
    (base * scalar).to_bytes()
}

} // verus!
