//! Tachygrams.

use vstd::prelude::*;

use crate::error::EncodingError;
use crate::primitives::field::{fp_check, spec_fp_canonical};

verus! {

/// A base-field element that is either a note commitment (output) or a
/// nullifier (spend) in the polynomial accumulator.
///
/// The accumulator does not distinguish the two: this indistinguishability
/// is what keeps actions uniform. A stamp may list more tachygrams than its
/// bundle has actions; the invariant is consistency between the list and
/// the proof, not a fixed ratio.
#[derive(Clone, Copy, Debug)]
pub struct Tachygram {
    bytes: [u8; 32],
}

impl PartialEq for Tachygram {
    fn eq(&self, other: &Tachygram) -> (r: bool) {
        crate::encoding::bytes32_eq(&self.bytes, &other.bytes)
    }
}

impl vstd::std_specs::cmp::PartialEqSpecImpl for Tachygram {
    open spec fn obeys_eq_spec() -> bool {
        true
    }

    open spec fn eq_spec(&self, other: &Tachygram) -> bool {
        self@ == other@
    }
}

impl View for Tachygram {
    type V = Seq<u8>;

    closed spec fn view(&self) -> Seq<u8> {
        self.bytes@
    }
}

impl Tachygram {
    /// Accept the canonical encoding of a base-field element as a
    /// tachygram.
    pub fn from_bytes(bytes: [u8; 32]) -> (r: Result<Tachygram, EncodingError>)
        ensures
            r is Ok <==> spec_fp_canonical(bytes@),
            r matches Ok(t) ==> t@ == bytes@,
            r is Err ==> r == Err::<Tachygram, EncodingError>(EncodingError::InvalidFieldElement),
    {
        if fp_check(&bytes) {
            Ok(Tachygram { bytes })
        } else {
            Err(EncodingError::InvalidFieldElement)
        }
    }

    /// Wrap an encoding the library itself produced.
    pub(crate) fn from_array(bytes: [u8; 32]) -> (r: Tachygram)
        ensures
            r@ == bytes@,
    {
        Tachygram { bytes }
    }

    /// The tachygram's 32-byte encoding.
    pub fn to_bytes(&self) -> (r: [u8; 32])
        ensures
            r@ == self@,
    {
        self.bytes
    }
}

} // verus!
