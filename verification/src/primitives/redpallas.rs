//! RedPallas signatures over the Orchard `SpendAuth` and `Binding`
//! parameterizations of `reddsa`.
//!
//! Signing keys are canonical 32-byte scalar encodings, verification keys
//! 32-byte compressed point encodings, signatures 64 bytes (`R || s`).

use ff::PrimeField;
use vstd::prelude::*;

use crate::primitives::curve::spec_point_valid;
use crate::primitives::field::spec_fq_canonical;

verus! {

/// The encoding of `[sk]G`: the `SpendAuth` verification key derived from
/// the signing key with canonical encoding `sk`.
pub uninterp spec fn spec_spendauth_public(sk: Seq<u8>) -> Seq<u8>;

/// The canonical encoding of `sk + alpha`: the `SpendAuth` signing key
/// randomized by the scalar `alpha`.
pub uninterp spec fn spec_spendauth_randomize_sk(sk: Seq<u8>, alpha: Seq<u8>) -> Seq<u8>;

/// The encoding of `pk + [alpha]G`: the `SpendAuth` verification key
/// randomized by the scalar `alpha`.
pub uninterp spec fn spec_spendauth_randomize_pk(pk: Seq<u8>, alpha: Seq<u8>) -> Seq<u8>;

/// Whether the 64-byte signature verifies over `msg` under the `SpendAuth`
/// verification key encoded by `pk` (false also when `pk` does not decode).
pub uninterp spec fn spec_spendauth_verify(pk: Seq<u8>, msg: Seq<u8>, sig: Seq<u8>) -> bool;

/// The encoding of `[sk]R`: the `Binding` verification key derived from the
/// signing key with canonical encoding `sk`. The `Binding` basepoint is the
/// value-commitment randomness generator `R`.
pub uninterp spec fn spec_binding_public(sk: Seq<u8>) -> Seq<u8>;

/// Whether the 64-byte signature verifies over `msg` under the `Binding`
/// verification key encoded by `pk` (false also when `pk` does not decode).
pub uninterp spec fn spec_binding_verify(pk: Seq<u8>, msg: Seq<u8>, sig: Seq<u8>) -> bool;

/// Relies on `reddsa::SigningKey::try_from` and `VerificationKey::from`:
/// the signing key parses exactly from canonical scalar encodings, and its
/// verification key is the basepoint multiple `[sk]G`, whose encoding
/// decodes back to the same point.
#[verifier::external_body]
pub(crate) fn spendauth_public(sk: &[u8; 32]) -> (r: [u8; 32])
    requires
        spec_fq_canonical(sk@),
    ensures
        r@ == spec_spendauth_public(sk@),
        spec_point_valid(r@),
{
    let key = reddsa::SigningKey::<reddsa::orchard::SpendAuth>::try_from(*sk).unwrap();
    reddsa::VerificationKey::from(&key).into()
}

/// Relies on `reddsa::SigningKey::randomize`: it returns the signing key
/// with scalar `sk + alpha`. Because `[sk + alpha]G == [sk]G + [alpha]G`,
/// the verification key of the result equals the public-side randomization
/// of the original verification key; both sides are computed by `reddsa`
/// from the same basepoint.
#[verifier::external_body]
pub(crate) fn spendauth_randomize_sk(sk: &[u8; 32], alpha: &[u8; 32]) -> (r: [u8; 32])
    requires
        spec_fq_canonical(sk@),
        spec_fq_canonical(alpha@),
    ensures
        r@ == spec_spendauth_randomize_sk(sk@, alpha@),
        spec_fq_canonical(r@),
        spec_spendauth_public(r@) == spec_spendauth_randomize_pk(spec_spendauth_public(sk@), alpha@),
{
    let key = reddsa::SigningKey::<reddsa::orchard::SpendAuth>::try_from(*sk).unwrap();
    let alpha = pasta_curves::Fq::from_repr(*alpha).unwrap();
    <[u8; 32]>::from(key.randomize(&alpha))
}

/// Relies on `reddsa::VerificationKey::randomize`: it returns the key whose
/// point is `pk + [alpha]G`, re-encoded; the encoding decodes back to the
/// same point.
#[verifier::external_body]
pub(crate) fn spendauth_randomize_pk(pk: &[u8; 32], alpha: &[u8; 32]) -> (r: [u8; 32])
    requires
        spec_point_valid(pk@),
        spec_fq_canonical(alpha@),
    ensures
        r@ == spec_spendauth_randomize_pk(pk@, alpha@),
        spec_point_valid(r@),
{
    let key = reddsa::VerificationKey::<reddsa::orchard::SpendAuth>::try_from(*pk).unwrap();
    let alpha = pasta_curves::Fq::from_repr(*alpha).unwrap();
    <[u8; 32]>::from(key.randomize(&alpha))
}

/// Relies on `reddsa::SigningKey::sign` and `VerificationKey::verify`: a
/// signature produced over `msg` with the key `sk` verifies over `msg`
/// under `[sk]G` (the verifier recomputes the challenge from the same key
/// bytes and checks `[s]G - [c]pk - R = 0`, which the signing equation
/// `s = nonce + c * sk` satisfies). The signature itself depends on the
/// drawn nonce, so nothing more is stated of it.
#[verifier::external_body]
pub(crate) fn spendauth_sign(
    sk: &[u8; 32],
    msg: &[u8; 64],
    rng: &mut rand::rngs::StdRng,
) -> (r: [u8; 64])
    requires
        spec_fq_canonical(sk@),
    ensures
        spec_spendauth_verify(spec_spendauth_public(sk@), msg@, r@),
{
    let key = reddsa::SigningKey::<reddsa::orchard::SpendAuth>::try_from(*sk).unwrap();
    let sig = key.sign(rng, msg);
    <[u8; 64]>::from(sig)
}

/// Relies on `reddsa::VerificationKey::verify`: whether the signature
/// verifies over `msg` under the key encoded by `pk`, a function of the
/// three byte strings alone; an undecodable `pk` verifies nothing.
#[verifier::external_body]
pub(crate) fn spendauth_verify(pk: &[u8; 32], msg: &[u8; 64], sig: &[u8; 64]) -> (r: bool)
    ensures
        r == spec_spendauth_verify(pk@, msg@, sig@),
{
    match reddsa::VerificationKey::<reddsa::orchard::SpendAuth>::try_from(*pk) {
        Ok(key) => {
            let sig = reddsa::Signature::<reddsa::orchard::SpendAuth>::from(*sig);
            key.verify(msg, &sig).is_ok()
        }
        Err(_) => false,
    }
}

/// Relies on `reddsa::SigningKey::try_from` and `VerificationKey::from`
/// over the `Binding` parameterization: the verification key is `[sk]R`,
/// with `R` the value-commitment randomness generator.
#[verifier::external_body]
pub(crate) fn binding_public(sk: &[u8; 32]) -> (r: [u8; 32])
    requires
        spec_fq_canonical(sk@),
    ensures
        r@ == spec_binding_public(sk@),
        spec_point_valid(r@),
{
    let key = reddsa::SigningKey::<reddsa::orchard::Binding>::try_from(*sk).unwrap();
    reddsa::VerificationKey::from(&key).into()
}

/// Relies on `reddsa::SigningKey::sign` and `VerificationKey::verify` over
/// the `Binding` parameterization, as for the `SpendAuth` signing wrapper:
/// whatever nonce is drawn, the produced signature verifies over `msg`
/// under `[sk]R`.
#[verifier::external_body]
pub(crate) fn binding_sign(
    sk: &[u8; 32],
    msg: &[u8; 64],
    rng: &mut rand::rngs::StdRng,
) -> (r: [u8; 64])
    requires
        spec_fq_canonical(sk@),
    ensures
        spec_binding_verify(spec_binding_public(sk@), msg@, r@),
{
    let key = reddsa::SigningKey::<reddsa::orchard::Binding>::try_from(*sk).unwrap();
    let sig = key.sign(rng, msg);
    <[u8; 64]>::from(sig)
}

/// Relies on `reddsa::VerificationKey::verify` over the `Binding`
/// parameterization: a function of the three byte strings alone; an
/// undecodable `pk` verifies nothing.
#[verifier::external_body]
pub(crate) fn binding_verify(pk: &[u8; 32], msg: &[u8; 64], sig: &[u8; 64]) -> (r: bool)
    ensures
        r == spec_binding_verify(pk@, msg@, sig@),
{
    match reddsa::VerificationKey::<reddsa::orchard::Binding>::try_from(*pk) {
        Ok(key) => {
            let sig = reddsa::Signature::<reddsa::orchard::Binding>::from(*sig);
            key.verify(msg, &sig).is_ok()
        }
        Err(_) => false,
    }
}

} // verus!
