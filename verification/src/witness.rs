//! Private witnesses (prover secrets) for stamp construction.

use vstd::prelude::*;

use crate::keys::ActionRandomizer;
use crate::note::Note;
use crate::primitives::{Epoch, Tachygram};
use crate::value;

verus! {

/// The private witness for merging two stamps.
///
/// Holds the anchor quotient `left_anchor / right_anchor` in the
/// accumulator's field, certifying that the left sub-proof's accumulator
/// state is a superset of the right's. For same-epoch merges the quotient
/// is one.
#[derive(Clone, Copy, Debug)]
pub struct MergePrivate {
    /// The canonical encoding of `left_anchor / right_anchor`.
    pub anchor_quotient: [u8; 32],
}

impl MergePrivate {
    /// The quotient-one witness for merging stamps that share an anchor.
    pub fn same_epoch() -> (r: MergePrivate)
        ensures
            r.anchor_quotient@[0] == 1u8,
            forall|i: int| 1 <= i < 32 ==> r.anchor_quotient@[i] == 0u8,
    {
        let mut bytes = [0u8; 32];
        bytes[0] = 1u8;
        MergePrivate { anchor_quotient: bytes }
    }
}

/// The private witness for a single action.
///
/// The circuit checks it against the public action and the listed
/// tachygram: `alpha` ties `rk` to `ak`, `rcv` opens `cv`, the note
/// fields reproduce the commitment, and `flavor` fixes the epoch of both
/// accumulator membership and nullifier derivation.
#[derive(Clone, Copy, Debug)]
pub struct ActionPrivate {
    /// The effect-erased authorization randomizer `alpha`.
    pub alpha: ActionRandomizer,
    /// The accumulator epoch, doubling as nullifier flavor.
    pub flavor: Epoch,
    /// The note being spent or created.
    pub note: Note,
    /// The value commitment trapdoor.
    pub rcv: value::CommitmentTrapdoor,
    /// The nullifier (spend) or note commitment (output) the action
    /// contributes to the accumulator.
    pub tachygram: Tachygram,
}

} // verus!
