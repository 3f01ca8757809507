//! Pallas base-field (`Fp`) and scalar-field (`Fq`) elements as canonical
//! 32-byte little-endian encodings.

use ff::{FromUniformBytes, PrimeField};
use vstd::prelude::*;

verus! {

/// Whether 32 bytes are the canonical encoding of a Pallas scalar-field
/// element, that is, whether `Fq::from_repr` accepts them.
pub uninterp spec fn spec_fq_canonical(bytes: Seq<u8>) -> bool;

/// Whether 32 bytes are the canonical encoding of a Pallas base-field
/// element, that is, whether `Fp::from_repr` accepts them.
pub uninterp spec fn spec_fp_canonical(bytes: Seq<u8>) -> bool;

/// The canonical encoding of the scalar-field element that 64 uniform bytes
/// reduce to (`Fq::from_uniform_bytes` followed by `to_repr`).
pub uninterp spec fn spec_fq_from_wide(bytes: Seq<u8>) -> Seq<u8>;

/// The canonical encoding of the base-field element that 64 uniform bytes
/// reduce to (`Fp::from_uniform_bytes` followed by `to_repr`).
pub uninterp spec fn spec_fp_from_wide(bytes: Seq<u8>) -> Seq<u8>;

/// The canonical encoding of the sum of two scalar-field elements given by
/// their canonical encodings.
pub uninterp spec fn spec_fq_add(a: Seq<u8>, b: Seq<u8>) -> Seq<u8>;

/// The canonical encoding of the negation of the scalar-field element given
/// by its canonical encoding.
pub uninterp spec fn spec_fq_neg(a: Seq<u8>) -> Seq<u8>;

/// The canonical encoding of the scalar-field element congruent to the
/// (signed) integer `v`.
pub uninterp spec fn spec_fq_from_signed(v: int) -> Seq<u8>;

/// Relies on `pasta_curves::Fq::from_repr`: it accepts exactly the canonical
/// little-endian encodings of scalar-field elements.
#[verifier::external_body]
pub(crate) fn fq_check(bytes: &[u8; 32]) -> (r: bool)
    ensures
        r == spec_fq_canonical(bytes@),
{
    pasta_curves::Fq::from_repr(*bytes).is_some().into()
}

/// Relies on `pasta_curves::Fp::from_repr`: it accepts exactly the canonical
/// little-endian encodings of base-field elements.
#[verifier::external_body]
pub(crate) fn fp_check(bytes: &[u8; 32]) -> (r: bool)
    ensures
        r == spec_fp_canonical(bytes@),
{
    pasta_curves::Fp::from_repr(*bytes).is_some().into()
}

/// Relies on `pasta_curves::Fq::from_uniform_bytes`: the unbiased reduction
/// of 64 bytes into the scalar field, a function of the bytes alone;
/// `to_repr` then yields the canonical encoding, which `from_repr` accepts.
#[verifier::external_body]
pub(crate) fn fq_from_wide(bytes: &[u8; 64]) -> (r: [u8; 32])
    ensures
        r@ == spec_fq_from_wide(bytes@),
        spec_fq_canonical(r@),
{
    pasta_curves::Fq::from_uniform_bytes(bytes).to_repr()
}

/// Relies on `pasta_curves::Fp::from_uniform_bytes`: the unbiased reduction
/// of 64 bytes into the base field, a function of the bytes alone; `to_repr`
/// then yields the canonical encoding, which `from_repr` accepts.
#[verifier::external_body]
pub(crate) fn fp_from_wide(bytes: &[u8; 64]) -> (r: [u8; 32])
    ensures
        r@ == spec_fp_from_wide(bytes@),
        spec_fp_canonical(r@),
{
    pasta_curves::Fp::from_uniform_bytes(bytes).to_repr()
}

/// Relies on scalar-field addition in `pasta_curves`: decodes the two
/// canonical encodings, adds, re-encodes canonically.
#[verifier::external_body]
pub(crate) fn fq_add(a: &[u8; 32], b: &[u8; 32]) -> (r: [u8; 32])
    requires
        spec_fq_canonical(a@),
        spec_fq_canonical(b@),
    ensures
        r@ == spec_fq_add(a@, b@),
        spec_fq_canonical(r@),
{
    let x = pasta_curves::Fq::from_repr(*a).unwrap();
    let y = pasta_curves::Fq::from_repr(*b).unwrap();
    (x + y).to_repr()
}

/// Relies on scalar-field negation in `pasta_curves`: decodes the canonical
/// encoding, negates, re-encodes canonically.
#[verifier::external_body]
pub(crate) fn fq_neg(a: &[u8; 32]) -> (r: [u8; 32])
    requires
        spec_fq_canonical(a@),
    ensures
        r@ == spec_fq_neg(a@),
        spec_fq_canonical(r@),
{
    let x = pasta_curves::Fq::from_repr(*a).unwrap();
    (-x).to_repr()
}

/// Relies on `Fq::from(u64)` and field negation: the canonical encoding of
/// the scalar-field element congruent to `magnitude`, negated when
/// `negative` holds. Both signs of zero encode the same element.
#[verifier::external_body]
pub(crate) fn fq_from_signed(negative: bool, magnitude: u64) -> (r: [u8; 32])
    ensures
        r@ == spec_fq_from_signed(
            if negative { -(magnitude as int) } else { magnitude as int },
        ),
        spec_fq_canonical(r@),
{
    let x = pasta_curves::Fq::from(magnitude);
    let signed = if negative { -x } else { x };
    signed.to_repr()
}

} // verus!
