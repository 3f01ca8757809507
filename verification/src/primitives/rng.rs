//! The caller-supplied random number generator.
//!
//! The crate never consults ambient randomness: every operation that needs
//! entropy takes a `rand::rngs::StdRng` handed in by the caller. The type
//! is opaque to the verifier; nothing is stated of the drawn values beyond
//! well-formedness of derived encodings.

use ff::{Field, PrimeField};
use rand::RngCore;
use vstd::prelude::*;

use crate::primitives::field::spec_fq_canonical;

verus! {

#[verifier::external_type_specification]
#[verifier::external_body]
/// Declares `rand::rngs::StdRng`, the cryptographically secure generator
/// callers pass in, so it can cross verified signatures.
pub struct ExStdRng(rand::rngs::StdRng);

/// Relies on `rand::RngCore::fill_bytes`: 32 fresh bytes from the
/// caller-supplied generator. Nothing can be promised of their value.
#[verifier::external_body]
pub(crate) fn random_bytes32(rng: &mut rand::rngs::StdRng) -> (r: [u8; 32])
{
    let mut bytes = [0u8; 32];
    rng.fill_bytes(&mut bytes);
    bytes
}

/// Relies on `ff::Field::random` for `pasta_curves::Fq`: a uniformly drawn
/// scalar-field element; only canonicity of its encoding is promised.
#[verifier::external_body]
pub(crate) fn random_fq(rng: &mut rand::rngs::StdRng) -> (r: [u8; 32])
    ensures
        spec_fq_canonical(r@),
{
    pasta_curves::Fq::random(rng).to_repr()
}

} // verus!
