//! Low-level cryptographic primitives.
//!
//! This module is the crate's only boundary with the outside cryptography:
//! BLAKE2b hashing, Pallas field and curve arithmetic, RedPallas signatures
//! and the caller-supplied random number generator. Each outside call sits
//! behind a small trusted wrapper whose contract names or states its result
//! over plain byte encodings; everything above this module is verified
//! against those contracts.
//!
//! Field elements travel as their canonical 32-byte little-endian encodings,
//! curve points as their 32-byte compressed encodings, and signatures as 64
//! bytes.

mod anchor;
mod curve;
mod epoch;
mod field;
mod hash;
mod redpallas;
mod rng;
mod tachygram;

pub use anchor::Anchor;
pub use epoch::Epoch;
pub use tachygram::Tachygram;

pub use curve::{
    spec_mul_rand_base, spec_mul_value_base, spec_point_add, spec_point_sub, spec_point_valid,
};
pub use field::{
    spec_fp_canonical, spec_fp_from_wide, spec_fq_add, spec_fq_canonical, spec_fq_from_signed,
    spec_fq_from_wide, spec_fq_neg,
};
pub use hash::spec_blake2b512;
pub use redpallas::{
    spec_binding_public, spec_binding_verify, spec_spendauth_public, spec_spendauth_randomize_pk,
    spec_spendauth_randomize_sk, spec_spendauth_verify,
};

pub(crate) use curve::{mul_rand_base, mul_value_base, point_add, point_check, point_sub};
pub(crate) use field::{fp_check, fp_from_wide, fq_add, fq_check, fq_from_signed, fq_from_wide, fq_neg};
pub(crate) use hash::blake2b512;
pub(crate) use redpallas::{
    binding_public, binding_sign, binding_verify, spendauth_public, spendauth_randomize_pk,
    spendauth_randomize_sk, spendauth_sign, spendauth_verify,
};
pub(crate) use rng::{random_bytes32, random_fq};
