//! Per-action entropy and authorization randomizers.
//!
//! The signer samples 32 bytes of entropy `theta` per action; together
//! with the note commitment it deterministically derives the randomizer
//! `alpha`, domain-separated by effect. Any device holding `theta` and the
//! note can reconstruct `alpha`, which is what lets a custody device sign
//! while an untrusted device proves.

use vstd::prelude::*;

use crate::constants::{OUTPUT_ALPHA_PERSONALIZATION, SPEND_ALPHA_PERSONALIZATION};
use crate::encoding::extend_bytes;
use crate::note;
use crate::primitives::{
    blake2b512, fq_from_wide, random_bytes32, spec_blake2b512, spec_fq_canonical,
    spec_fq_from_wide,
};

verus! {

/// The randomizer derived from a personalization, per-action entropy and
/// a note commitment: BLAKE2b-512 of `theta || cm` under the
/// personalization, reduced into the scalar field.
pub open spec fn spec_alpha(personal: Seq<u8>, theta: Seq<u8>, cm: Seq<u8>) -> Seq<u8> {
    spec_fq_from_wide(spec_blake2b512(personal, theta + cm))
}

/// Per-action entropy `theta`, 32 bytes chosen by the signer.
///
/// Kept until the stamp is built so that the prover can re-derive each
/// action's `alpha`.
#[derive(Clone, Copy, Debug)]
pub struct ActionEntropy {
    bytes: [u8; 32],
}

impl View for ActionEntropy {
    type V = Seq<u8>;

    closed spec fn view(&self) -> Seq<u8> {
        self.bytes@
    }
}

impl ActionEntropy {
    /// Sample fresh per-action entropy from the caller's generator.
    pub fn random(rng: &mut rand::rngs::StdRng) -> (r: ActionEntropy) {
        ActionEntropy { bytes: random_bytes32(rng) }
    }

    /// Adopt 32 raw bytes as entropy.
    pub fn from_bytes(bytes: [u8; 32]) -> (r: ActionEntropy)
        ensures
            r@ == bytes@,
    {
        ActionEntropy { bytes }
    }

    /// The entropy's 32 bytes.
    pub fn to_bytes(&self) -> (r: [u8; 32])
        ensures
            r@ == self@,
    {
        self.bytes
    }

    /// Derive `alpha` for a spend action.
    pub fn spend_randomizer(&self, cm: &note::Commitment) -> (r: SpendRandomizer)
        ensures
            r@ == spec_alpha(SPEND_ALPHA_PERSONALIZATION@, self@, cm@),
    {
        SpendRandomizer { bytes: derive_alpha(SPEND_ALPHA_PERSONALIZATION.as_slice(), self, cm) }
    }

    /// Derive `alpha` for an output action.
    pub fn output_randomizer(&self, cm: &note::Commitment) -> (r: OutputRandomizer)
        ensures
            r@ == spec_alpha(OUTPUT_ALPHA_PERSONALIZATION@, self@, cm@),
    {
        OutputRandomizer { bytes: derive_alpha(OUTPUT_ALPHA_PERSONALIZATION.as_slice(), self, cm) }
    }
}

/// Derive the raw `alpha` scalar encoding from a personalization, entropy
/// and note commitment.
fn derive_alpha(personal: &[u8], theta: &ActionEntropy, cm: &note::Commitment) -> (r: [u8; 32])
    requires
        personal@.len() <= 16,
    ensures
        r@ == spec_alpha(personal@, theta@, cm@),
        spec_fq_canonical(r@),
{
    let mut data: Vec<u8> = Vec::new();
    let theta_bytes = theta.to_bytes();
    extend_bytes(&mut data, theta_bytes.as_slice());
    let cm_bytes = cm.to_bytes();
    extend_bytes(&mut data, cm_bytes.as_slice());
    proof {
        assert(data@ =~= theta@ + cm@);
    }
    let digest = blake2b512(personal, &data);
    fq_from_wide(&digest)
}

/// Spend-side randomizer `alpha`: combined with `ask` it yields the
/// action signing key `rsk = ask + alpha`.
#[derive(Clone, Copy, Debug)]
pub struct SpendRandomizer {
    bytes: [u8; 32],
}

impl View for SpendRandomizer {
    type V = Seq<u8>;

    closed spec fn view(&self) -> Seq<u8> {
        self.bytes@
    }
}

impl SpendRandomizer {
    #[verifier::type_invariant]
    pub(crate) open spec fn canonical(self) -> bool {
        spec_fq_canonical(self@)
    }

    /// The randomizer's canonical 32-byte encoding.
    pub fn to_bytes(&self) -> (r: [u8; 32])
        ensures
            r@ == self@,
    {
        self.bytes
    }

    /// Erase the effect for circuit consumption: the witness form carries
    /// only the scalar and cannot sign.
    pub fn to_witness(&self) -> (r: ActionRandomizer)
        ensures
            r@ == self@,
    {
        proof {
            use_type_invariant(self);
        }
        ActionRandomizer { bytes: self.bytes }
    }
}

/// Output-side randomizer `alpha`: it is itself the action signing key
/// (`rsk = alpha`), with `rk = [alpha]G`.
#[derive(Clone, Copy, Debug)]
pub struct OutputRandomizer {
    bytes: [u8; 32],
}

impl View for OutputRandomizer {
    type V = Seq<u8>;

    closed spec fn view(&self) -> Seq<u8> {
        self.bytes@
    }
}

impl OutputRandomizer {
    #[verifier::type_invariant]
    pub(crate) open spec fn canonical(self) -> bool {
        spec_fq_canonical(self@)
    }

    /// The randomizer's canonical 32-byte encoding.
    pub fn to_bytes(&self) -> (r: [u8; 32])
        ensures
            r@ == self@,
    {
        self.bytes
    }

    /// Derive `rk = [alpha]G` for the assembly phase.
    pub fn derive_rk(&self) -> (r: crate::keys::public::ActionVerificationKey)
        ensures
            r@ == crate::primitives::spec_spendauth_public(self@),
    {
        let rsk = crate::keys::private::ActionSigningKey::from_output_alpha(self);
        rsk.derive_action_public()
    }

    /// Erase the effect for circuit consumption.
    pub fn to_witness(&self) -> (r: ActionRandomizer)
        ensures
            r@ == self@,
    {
        proof {
            use_type_invariant(self);
        }
        ActionRandomizer { bytes: self.bytes }
    }
}

/// The effect-erased randomizer carried in proof witnesses.
///
/// It can derive `rk` prover-side but cannot sign: the signing path
/// requires knowing whether the action spends or outputs.
#[derive(Clone, Copy, Debug)]
pub struct ActionRandomizer {
    bytes: [u8; 32],
}

impl View for ActionRandomizer {
    type V = Seq<u8>;

    closed spec fn view(&self) -> Seq<u8> {
        self.bytes@
    }
}

impl ActionRandomizer {
    #[verifier::type_invariant]
    pub(crate) open spec fn canonical(self) -> bool {
        spec_fq_canonical(self@)
    }

    /// The randomizer's canonical 32-byte encoding.
    pub fn to_bytes(&self) -> (r: [u8; 32])
        ensures
            r@ == self@,
    {
        self.bytes
    }
}

} // verus!
