//! Note-related keys: the nullifier key, the per-note master key and the
//! payment key.

use vstd::prelude::*;

use crate::constants::NULLIFIER_DOMAIN;
use crate::encoding::extend_bytes;
use crate::error::EncodingError;
use crate::note::{Nullifier, NullifierTrapdoor};
use crate::primitives::{
    blake2b512, fp_check, fp_from_wide, spec_blake2b512, spec_fp_canonical, spec_fp_from_wide,
    Epoch,
};

verus! {

/// The per-note master key `mk = KDF(psi, nk)`: the nullifier-derivation
/// domain, a key-derivation stage byte, the trapdoor and the nullifier key,
/// hashed and reduced to the base field.
pub open spec fn spec_note_master(psi: Seq<u8>, nk: Seq<u8>) -> Seq<u8> {
    spec_fp_from_wide(
        spec_blake2b512(Seq::empty(), NULLIFIER_DOMAIN@ + seq![0u8] + psi + nk),
    )
}

/// A nullifier evaluated from a master key at a flavor (epoch): the
/// nullifier-derivation domain, an evaluation stage byte, the master key
/// and the flavor, hashed and reduced to the base field.
pub open spec fn spec_nullifier_eval(mk: Seq<u8>, flavor: Seq<u8>) -> Seq<u8> {
    spec_fp_from_wide(
        spec_blake2b512(Seq::empty(), NULLIFIER_DOMAIN@ + seq![1u8] + mk + flavor),
    )
}

/// The nullifier of a note with trapdoor `psi` under nullifier key `nk` at
/// the given flavor.
pub open spec fn spec_nullifier(psi: Seq<u8>, nk: Seq<u8>, flavor: Seq<u8>) -> Seq<u8> {
    spec_nullifier_eval(spec_note_master(psi, nk), flavor)
}

/// A Tachyon nullifier deriving key `nk`.
///
/// Enables observing when a note is spent (nullifier derivation) and, with
/// `ak`, constructing proofs. It confers no spend authority.
#[derive(Clone, Copy, Debug)]
pub struct NullifierKey {
    bytes: [u8; 32],
}

impl View for NullifierKey {
    type V = Seq<u8>;

    closed spec fn view(&self) -> Seq<u8> {
        self.bytes@
    }
}

impl NullifierKey {
    /// Wrap an encoding the library itself derived.
    pub(crate) fn from_array(bytes: [u8; 32]) -> (r: NullifierKey)
        ensures
            r@ == bytes@,
    {
        NullifierKey { bytes }
    }

    /// The key's 32-byte encoding.
    pub fn to_bytes(&self) -> (r: [u8; 32])
        ensures
            r@ == self@,
    {
        self.bytes
    }

    /// Derive the per-note master key `mk = KDF(psi, nk)`, the root from
    /// which the note's nullifiers at every flavor are evaluated.
    pub fn derive_note_private(&self, psi: &NullifierTrapdoor) -> (r: NoteMasterKey)
        ensures
            r@ == spec_note_master(psi@, self@),
    {
        let mut data: Vec<u8> = Vec::new();
        extend_bytes(&mut data, NULLIFIER_DOMAIN.as_slice());
        data.push(0u8);
        let psi_bytes = psi.to_bytes();
        extend_bytes(&mut data, psi_bytes.as_slice());
        extend_bytes(&mut data, self.bytes.as_slice());
        let empty: Vec<u8> = Vec::new();
        let digest = blake2b512(empty.as_slice(), &data);
        proof {
            assert(data@ =~= NULLIFIER_DOMAIN@ + seq![0u8] + psi@ + self@);
        }
        NoteMasterKey { bytes: fp_from_wide(&digest) }
    }
}

/// The per-note master key `mk`, root of the note's nullifier tree.
///
/// Derived ephemerally by the holder of `nk`; never stored or transmitted.
#[derive(Clone, Copy, Debug)]
pub struct NoteMasterKey {
    bytes: [u8; 32],
}

impl View for NoteMasterKey {
    type V = Seq<u8>;

    closed spec fn view(&self) -> Seq<u8> {
        self.bytes@
    }
}

impl NoteMasterKey {
    /// Evaluate the note's nullifier at a flavor (epoch): `nf =
    /// F_mk(flavor)`. The same note at different flavors produces
    /// different nullifiers.
    pub fn derive_nullifier(&self, flavor: Epoch) -> (r: Nullifier)
        ensures
            r@ == spec_nullifier_eval(self@, flavor@),
    {
        let mut data: Vec<u8> = Vec::new();
        extend_bytes(&mut data, NULLIFIER_DOMAIN.as_slice());
        data.push(1u8);
        extend_bytes(&mut data, self.bytes.as_slice());
        let flavor_bytes = flavor.to_bytes();
        extend_bytes(&mut data, flavor_bytes.as_slice());
        let empty: Vec<u8> = Vec::new();
        let digest = blake2b512(empty.as_slice(), &data);
        proof {
            assert(data@ =~= NULLIFIER_DOMAIN@ + seq![1u8] + self@ + flavor@);
        }
        Nullifier::from_array(fp_from_wide(&digest))
    }
}

/// A Tachyon payment key `pk` — the static recipient identifier.
///
/// Deterministic per spending key: every note from the same wallet shares
/// the same `pk`. It appears inside notes and their commitments and is not
/// an on-chain address; payment coordination happens out of band.
#[derive(Clone, Copy, Debug)]
pub struct PaymentKey {
    bytes: [u8; 32],
}

impl View for PaymentKey {
    type V = Seq<u8>;

    closed spec fn view(&self) -> Seq<u8> {
        self.bytes@
    }
}

impl PaymentKey {
    /// Accept the canonical encoding of a base-field element as a payment
    /// key.
    pub fn from_bytes(bytes: [u8; 32]) -> (r: Result<PaymentKey, EncodingError>)
        ensures
            r is Ok <==> spec_fp_canonical(bytes@),
            r matches Ok(k) ==> k@ == bytes@,
            r is Err ==> r == Err::<PaymentKey, EncodingError>(EncodingError::InvalidFieldElement),
    {
        if fp_check(&bytes) {
            Ok(PaymentKey { bytes })
        } else {
            Err(EncodingError::InvalidFieldElement)
        }
    }

    /// Wrap an encoding the library itself derived.
    pub(crate) fn from_array(bytes: [u8; 32]) -> (r: PaymentKey)
        ensures
            r@ == bytes@,
    {
        PaymentKey { bytes }
    }

    /// The key's 32-byte encoding.
    pub fn to_bytes(&self) -> (r: [u8; 32])
        ensures
            r@ == self@,
    {
        self.bytes
    }
}

} // verus!
