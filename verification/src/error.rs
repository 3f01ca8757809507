//! Library-wide error types.
//!
//! Validation errors surface at the boundary where untrusted bytes enter;
//! verification errors are returned to the validator and never recovered
//! internally.

use vstd::prelude::*;

verus! {

/// An encoding handed to the library was rejected at the boundary.
#[derive(Clone, Copy, Debug, PartialEq, Eq, Structural)]
pub enum EncodingError {
    /// The 32 bytes are not the canonical compressed encoding of a Pallas
    /// point.
    InvalidPoint,
    /// The 32 bytes are not the canonical little-endian encoding of a field
    /// element.
    InvalidFieldElement,
    /// A note value above the protocol maximum.
    NoteValueOverflow,
}

/// A bundle signature (action or binding) failed verification.
///
/// Opaque to the caller: the verifier does not reveal which check failed
/// beyond the position of the error in the pipeline.
#[derive(Clone, Copy, Debug, PartialEq, Eq, Structural)]
pub struct SignatureError;

/// Child-key derivation could not sign-normalize the spend authorizing
/// key: the derived public key's encoding kept its y-sign bit through
/// negation, which the curve arithmetic does not produce. Treated as
/// fatal by callers.
#[derive(Clone, Copy, Debug, PartialEq, Eq, Structural)]
pub struct DerivationError;

/// A custody device declined or failed to authorize a plan.
#[derive(Clone, Copy, Debug, PartialEq, Eq, Structural)]
pub enum CustodyError {
    /// The device refused to sign the presented plan.
    CustodyDenied,
    /// The transport to the device failed.
    CustodyTransport,
}

} // verus!
