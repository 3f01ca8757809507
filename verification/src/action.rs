//! Tachyon actions: unified spends and outputs.
//!
//! An action's public effecting data is the pair `(cv, rk)`; a signed
//! action adds the RedPallas signature over the bundle-wide sighash. The
//! tachygram (nullifier or note commitment) is not part of the action: it
//! travels in the stamp, which the proof binds to the action.

use vstd::prelude::*;

use crate::constants::{OUTPUT_ALPHA_PERSONALIZATION, SPEND_ALPHA_PERSONALIZATION};
use crate::keys::{
    spec_alpha, ActionEntropy, ActionVerificationKey, SpendValidatingKey,
};
use crate::note::Note;
use crate::primitives::{spec_spendauth_public, spec_spendauth_randomize_pk};
use crate::value;

verus! {

/// The effect of an action: spending an existing note or creating a new
/// one. Spends contribute their value to the balance, outputs exhaust it.
#[derive(Clone, Copy, Debug, PartialEq, Eq, Structural)]
pub enum Effect {
    /// Consume a note; its nullifier becomes the tachygram.
    Spend,
    /// Create a note; its commitment becomes the tachygram.
    Output,
}

/// An action plan: one planned spend or output, assembled from public
/// material only, awaiting authorization.
///
/// `rk` is derived prover-side — from `ak` for spends, from `alpha` alone
/// for outputs — so no signing key is needed at assembly time.
#[derive(Clone, Copy, Debug)]
pub struct Plan {
    /// Whether the action spends or outputs.
    pub effect: Effect,
    /// The note being spent or created.
    pub note: Note,
    /// The per-action entropy the randomizer derives from.
    pub theta: ActionEntropy,
    /// The randomized verification key of the action.
    pub rk: ActionVerificationKey,
}

impl Plan {
    /// The alpha personalization this plan's effect selects.
    pub open spec fn spec_personal(self) -> Seq<u8> {
        match self.effect {
            Effect::Spend => SPEND_ALPHA_PERSONALIZATION@,
            Effect::Output => OUTPUT_ALPHA_PERSONALIZATION@,
        }
    }

    /// The randomizer this plan's entropy and note derive.
    pub open spec fn spec_alpha_of(self) -> Seq<u8> {
        spec_alpha(self.spec_personal(), self.theta@, self.note.spec_commitment())
    }

    /// Whether `rk` is the key the plan's own material derives under the
    /// validating key `ak`: the signer's and prover's derivations agree
    /// on it.
    pub open spec fn spec_rk_consistent(self, ak: Seq<u8>) -> bool {
        match self.effect {
            Effect::Spend => self.rk@ == spec_spendauth_randomize_pk(ak, self.spec_alpha_of()),
            Effect::Output => self.rk@ == spec_spendauth_public(self.spec_alpha_of()),
        }
    }

    /// Plan a spend of `note`: derive `alpha` from `theta` and the note
    /// commitment, then `rk = ak + [alpha]G` from public material only.
    pub fn spend(note: Note, theta: ActionEntropy, ak: &SpendValidatingKey) -> (r: Plan)
        ensures
            r.effect == Effect::Spend,
            r.note == note,
            r.theta == theta,
            r.rk@ == spec_spendauth_randomize_pk(ak@, r.spec_alpha_of()),
            r.spec_rk_consistent(ak@),
    {
        let cm = note.commitment();
        let alpha = theta.spend_randomizer(&cm);
        let rk = ak.derive_action_public(&alpha.to_witness());
        Plan { effect: Effect::Spend, note, theta, rk }
    }

    /// Plan an output of `note`: derive `alpha` from `theta` and the note
    /// commitment, then `rk = [alpha]G`. No spend authority is involved.
    pub fn output(note: Note, theta: ActionEntropy) -> (r: Plan)
        ensures
            r.effect == Effect::Output,
            r.note == note,
            r.theta == theta,
            r.rk@ == spec_spendauth_public(r.spec_alpha_of()),
            forall|ak: Seq<u8>| r.spec_rk_consistent(ak),
    {
        let cm = note.commitment();
        let alpha = theta.output_randomizer(&cm);
        let rk = alpha.derive_rk();
        Plan { effect: Effect::Output, note, theta, rk }
    }

    /// The signed value this action contributes to the balance: positive
    /// for spends, negative for outputs.
    pub open spec fn spec_signed_value(self) -> int {
        match self.effect {
            Effect::Spend => self.note.value@ as int,
            Effect::Output => -(self.note.value@ as int),
        }
    }
}

/// A signed Tachyon action: the public effecting data `(cv, rk)` and the
/// spend authorization signature over the bundle-wide sighash.
#[derive(Clone, Copy, Debug)]
pub struct Action {
    /// The value commitment.
    pub cv: value::Commitment,
    /// The randomized verification key.
    pub rk: ActionVerificationKey,
    /// The signature by the single-use `rsk` over the bundle sighash.
    pub sig: Signature,
}

/// A spend authorization signature (RedPallas over `SpendAuth`).
#[derive(Clone, Copy, Debug)]
pub struct Signature {
    bytes: [u8; 64],
}

impl View for Signature {
    type V = Seq<u8>;

    closed spec fn view(&self) -> Seq<u8> {
        self.bytes@
    }
}

impl Signature {
    /// Adopt 64 bytes as a signature; every byte string is a syntactically
    /// valid signature.
    pub fn from_bytes(bytes: [u8; 64]) -> (r: Signature)
        ensures
            r@ == bytes@,
    {
        Signature { bytes }
    }

    /// Wrap an encoding the library itself produced.
    pub(crate) fn from_array(bytes: [u8; 64]) -> (r: Signature)
        ensures
            r@ == bytes@,
    {
        Signature { bytes }
    }

    /// The signature's 64-byte encoding.
    pub fn to_bytes(&self) -> (r: [u8; 64])
        ensures
            r@ == self@,
    {
        self.bytes
    }
}

} // verus!
