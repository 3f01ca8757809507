//! Stamps: the accumulator attachment of a bundle.
//!
//! A stamp carries the tachygram list, the epoch anchor and the proof.
//! During aggregation stamps are stripped off adjunct bundles and merged
//! pairwise into the aggregate's stamp; the later (larger) anchor
//! subsumes the earlier, and the merged tachygram list is the
//! concatenation of the two sides.

use vstd::prelude::*;

use crate::action::Action;
use crate::keys::ProofAuthorizingKey;
use crate::pcd::Proof;
use crate::primitives::{Anchor, Tachygram};
use crate::witness::{ActionPrivate, MergePrivate};

verus! {

/// Marker for the absence of a stamp on a stripped bundle.
#[derive(Clone, Copy, Debug)]
pub struct Stampless;

/// A stamp: tachygrams, anchor and proof.
///
/// The accumulators the proof binds are not stored; verifiers recompute
/// them from the public data.
#[derive(Clone, Debug)]
pub struct Stamp {
    /// The tachygrams (nullifiers and note commitments), for data
    /// availability. There may be more of them than the bundle has
    /// actions.
    pub tachygrams: Vec<Tachygram>,
    /// The accumulator state (epoch) the proof refers to.
    pub anchor: Anchor,
    /// The proof.
    pub proof: Proof,
}

impl Stamp {
    /// Prove a stamp over action witnesses: one proof covering every
    /// action, listing each witness's tachygram in order.
    pub fn prove(
        witnesses: &Vec<ActionPrivate>,
        actions: &Vec<Action>,
        anchor: Anchor,
        pak: &ProofAuthorizingKey,
    ) -> (r: Stamp)
        ensures
            r.tachygrams@ == witnesses@.map_values(|w: ActionPrivate| w.tachygram),
            r.anchor == anchor,
    {
        let (proof, tachygrams) = Proof::create(actions, witnesses, &anchor, pak);
        Stamp { tachygrams, anchor, proof }
    }

    /// Merge this stamp with another: concatenate the tachygram lists,
    /// keep the later anchor, and merge the proofs under the given
    /// witness. The witness's anchor quotient certifies that the
    /// later-anchored side's accumulator state subsumes the other's; for
    /// same-epoch merges it is one.
    pub fn merge(self, other: Stamp, witness: &MergePrivate) -> (r: Stamp)
        ensures
            r.tachygrams@ == self.tachygrams@ + other.tachygrams@,
            r.anchor == if other.anchor.spec_value() > self.anchor.spec_value() {
                other.anchor
            } else {
                self.anchor
            },
    {
        let anchor = self.anchor.later(other.anchor);
        let mut tachygrams = self.tachygrams;
        let mut rest = other.tachygrams;
        let ghost left = tachygrams@;
        let ghost right = rest@;
        let mut i: usize = 0;
        while i < rest.len()
            invariant
                0 <= i <= right.len(),
                rest@ == right,
                tachygrams@ == left + right.take(i as int),
            decreases right.len() - i,
        {
            tachygrams.push(rest[i]);
            proof {
                assert(tachygrams@ =~= left + right.take(i + 1));
            }
            i = i + 1;
        }
        proof {
            assert(right.take(right.len() as int) =~= right);
        }
        let proof_merged = Proof::merge(self.proof, other.proof, witness);
        Stamp { tachygrams, anchor, proof: proof_merged }
    }
}

} // verus!
