//! Accumulator anchors.

use vstd::prelude::*;

use crate::encoding::spec_le_nat;
use crate::error::EncodingError;
use crate::primitives::field::{fp_check, spec_fp_canonical};

verus! {

/// A reference to a specific accumulator state.
///
/// The accumulator is append-only: the state at an earlier epoch is a
/// subset of the state at a later one, so membership proofs valid at an
/// earlier anchor remain valid later. When stamps are merged the later
/// anchor subsumes the earlier. Anchors order as the integers their
/// canonical little-endian encodings denote.
#[derive(Clone, Copy, Debug)]
pub struct Anchor {
    bytes: [u8; 32],
}

impl PartialEq for Anchor {
    fn eq(&self, other: &Anchor) -> (r: bool) {
        crate::encoding::bytes32_eq(&self.bytes, &other.bytes)
    }
}

impl vstd::std_specs::cmp::PartialEqSpecImpl for Anchor {
    open spec fn obeys_eq_spec() -> bool {
        true
    }

    open spec fn eq_spec(&self, other: &Anchor) -> bool {
        self@ == other@
    }
}

impl View for Anchor {
    type V = Seq<u8>;

    closed spec fn view(&self) -> Seq<u8> {
        self.bytes@
    }
}

impl Anchor {
    /// The integer an anchor's encoding denotes, which orders epochs.
    pub open spec fn spec_value(self) -> nat {
        spec_le_nat(self@)
    }

    /// Accept the canonical encoding of a base-field element as an anchor.
    pub fn from_bytes(bytes: [u8; 32]) -> (r: Result<Anchor, EncodingError>)
        ensures
            r is Ok <==> spec_fp_canonical(bytes@),
            r matches Ok(a) ==> a@ == bytes@,
            r is Err ==> r == Err::<Anchor, EncodingError>(EncodingError::InvalidFieldElement),
    {
        if fp_check(&bytes) {
            Ok(Anchor { bytes })
        } else {
            Err(EncodingError::InvalidFieldElement)
        }
    }

    /// The anchor's 32-byte encoding.
    pub fn to_bytes(&self) -> (r: [u8; 32])
        ensures
            r@ == self@,
    {
        self.bytes
    }

    /// The later of two anchors: the one denoting the larger epoch value.
    pub fn later(self, other: Anchor) -> (r: Anchor)
        ensures
            r == if other.spec_value() > self.spec_value() { other } else { self },
    {
        if crate::encoding::bytes32_lt(&self.bytes, &other.bytes) {
            other
        } else {
            self
        }
    }
}

} // verus!
