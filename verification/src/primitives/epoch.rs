//! Accumulator epochs.

use vstd::prelude::*;

use crate::error::EncodingError;
use crate::primitives::anchor::Anchor;
use crate::primitives::field::{fp_check, spec_fp_canonical};

verus! {

/// A point in the accumulator's history.
///
/// The epoch identifies a pool accumulator state and doubles as the
/// **flavor** input of nullifier derivation: the same note spent at
/// different epochs reveals different nullifiers.
#[derive(Clone, Copy, Debug)]
pub struct Epoch {
    bytes: [u8; 32],
}

impl PartialEq for Epoch {
    fn eq(&self, other: &Epoch) -> (r: bool) {
        crate::encoding::bytes32_eq(&self.bytes, &other.bytes)
    }
}

impl vstd::std_specs::cmp::PartialEqSpecImpl for Epoch {
    open spec fn obeys_eq_spec() -> bool {
        true
    }

    open spec fn eq_spec(&self, other: &Epoch) -> bool {
        self@ == other@
    }
}

impl View for Epoch {
    type V = Seq<u8>;

    closed spec fn view(&self) -> Seq<u8> {
        self.bytes@
    }
}

impl Epoch {
    /// Accept the canonical encoding of a base-field element as an epoch.
    pub fn from_bytes(bytes: [u8; 32]) -> (r: Result<Epoch, EncodingError>)
        ensures
            r is Ok <==> spec_fp_canonical(bytes@),
            r matches Ok(e) ==> e@ == bytes@,
            r is Err ==> r == Err::<Epoch, EncodingError>(EncodingError::InvalidFieldElement),
    {
        if fp_check(&bytes) {
            Ok(Epoch { bytes })
        } else {
            Err(EncodingError::InvalidFieldElement)
        }
    }

    /// The epoch an anchor refers to, used as the nullifier flavor.
    pub fn from_anchor(anchor: &Anchor) -> (r: Epoch)
        ensures
            r@ == anchor@,
    {
        Epoch { bytes: anchor.to_bytes() }
    }

    /// The epoch's 32-byte encoding.
    pub fn to_bytes(&self) -> (r: [u8; 32])
        ensures
            r@ == self@,
    {
        self.bytes
    }
}

} // verus!
