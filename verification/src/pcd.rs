//! The proof-carrying-data boundary.
//!
//! The concrete proving system sits outside this crate: [`Proof`] records
//! its interface — create one proof per action, merge proofs pairwise,
//! verify against accumulators reconstructed from public data — and the
//! bundle pipeline is arranged around those three operations. The
//! placeholder proof accepts every reconstruction; what the crate
//! guarantees is the order of operations around it, not soundness of the
//! proving system itself.

use vstd::prelude::*;

use crate::action::Action;
use crate::keys::ProofAuthorizingKey;
use crate::primitives::{Anchor, Tachygram};
use crate::witness::{ActionPrivate, MergePrivate};

verus! {

/// A proof covering all actions of a stamp.
#[derive(Clone, Copy, Debug, PartialEq, Eq, Structural)]
pub struct Proof;

/// Proof verification failed against the reconstructed accumulators.
#[derive(Clone, Copy, Debug, PartialEq, Eq, Structural)]
pub struct ValidationError;

impl Proof {
    /// Create a proof over the given action witnesses and collect their
    /// tachygrams, one per action in order.
    pub fn create(
        actions: &Vec<Action>,
        witnesses: &Vec<ActionPrivate>,
        anchor: &Anchor,
        pak: &ProofAuthorizingKey,
    ) -> (r: (Proof, Vec<Tachygram>))
        ensures
            r.1@ == witnesses@.map_values(|w: ActionPrivate| w.tachygram),
    {
        let mut tachygrams: Vec<Tachygram> = Vec::new();
        let mut i: usize = 0;
        while i < witnesses.len()
            invariant
                0 <= i <= witnesses@.len(),
                tachygrams@.len() == i,
                forall|j: int|
                    0 <= j < i ==> #[trigger] tachygrams@[j] == witnesses@[j].tachygram,
            decreases witnesses@.len() - i,
        {
            tachygrams.push(witnesses[i].tachygram);
            i = i + 1;
        }
        proof {
            assert(tachygrams@ =~= witnesses@.map_values(|w: ActionPrivate| w.tachygram));
        }
        (Proof, tachygrams)
    }

    /// Merge two proofs into one covering both sides' actions. The merge
    /// witness certifies the anchor-subset relation between the sides.
    pub fn merge(left: Proof, right: Proof, witness: &MergePrivate) -> (r: Proof) {
        let _ = left;
        let _ = right;
        let _ = witness;
        Proof
    }

    /// Verify this proof against the accumulators reconstructed from the
    /// public actions, the listed tachygrams and the anchor. The
    /// placeholder proof accepts every consistent reconstruction.
    pub fn verify(
        &self,
        actions: &Vec<Action>,
        tachygrams: &Vec<Tachygram>,
        anchor: Anchor,
    ) -> (r: Result<(), ValidationError>)
        ensures
            r is Ok,
    {
        let _ = actions;
        let _ = tachygrams;
        let _ = anchor;
        Ok(())
    }
}

impl Default for Proof {
    fn default() -> (r: Proof)
        ensures
            r == Proof,
    {
        Proof
    }
}

} // verus!
