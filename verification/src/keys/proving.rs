//! Proof-side keys: the spend validating key and the proof authorizing
//! key.

use vstd::prelude::*;

use crate::error::EncodingError;
use crate::keys::note::NullifierKey;
use crate::keys::public::ActionVerificationKey;
use crate::keys::randomizer::ActionRandomizer;
use crate::primitives::{
    point_check, spendauth_randomize_pk, spec_point_valid, spec_spendauth_randomize_pk,
};

verus! {

/// The spend validating key `ak = [ask]G` — the long-lived public
/// counterpart of the spend authorizing key.
///
/// It cannot verify action signatures itself; the prover randomizes it
/// per action into the `rk` the circuit constrains.
#[derive(Clone, Copy, Debug)]
pub struct SpendValidatingKey {
    bytes: [u8; 32],
}

impl View for SpendValidatingKey {
    type V = Seq<u8>;

    closed spec fn view(&self) -> Seq<u8> {
        self.bytes@
    }
}

impl SpendValidatingKey {
    #[verifier::type_invariant]
    pub(crate) open spec fn valid(self) -> bool {
        spec_point_valid(self@)
    }

    /// Wrap an encoding the library itself derived.
    pub(crate) fn from_array(bytes: [u8; 32]) -> (r: SpendValidatingKey)
        requires
            spec_point_valid(bytes@),
        ensures
            r@ == bytes@,
    {
        SpendValidatingKey { bytes }
    }

    /// Accept a compressed Pallas point encoding as a validating key.
    pub fn from_bytes(bytes: [u8; 32]) -> (r: Result<SpendValidatingKey, EncodingError>)
        ensures
            r is Ok <==> spec_point_valid(bytes@),
            r matches Ok(k) ==> k@ == bytes@,
            r is Err ==> r == Err::<SpendValidatingKey, EncodingError>(EncodingError::InvalidPoint),
    {
        if point_check(&bytes) {
            Ok(SpendValidatingKey { bytes })
        } else {
            Err(EncodingError::InvalidPoint)
        }
    }

    /// The key's 32-byte encoding.
    pub fn to_bytes(&self) -> (r: [u8; 32])
        ensures
            r@ == self@,
    {
        self.bytes
    }

    /// Derive the per-action verification key `rk = ak + [alpha]G`, the
    /// prover-side counterpart of the signer's derivation from `rsk`.
    pub fn derive_action_public(&self, alpha: &ActionRandomizer) -> (r: ActionVerificationKey)
        ensures
            r@ == spec_spendauth_randomize_pk(self@, alpha@),
    {
        proof {
            use_type_invariant(self);
            use_type_invariant(alpha);
        }
        let alpha_bytes = alpha.to_bytes();
        ActionVerificationKey::from_array(spendauth_randomize_pk(&self.bytes, &alpha_bytes))
    }
}

/// The proof authorizing key `pak = (ak, nk)`.
///
/// Authorizes proof construction without spend authority: the holder can
/// build proofs for every note of the wallet but cannot sign actions. It
/// may be delegated to an untrusted proving service.
#[derive(Clone, Copy, Debug)]
pub struct ProofAuthorizingKey {
    /// The spend validating key `ak = [ask]G`.
    pub ak: SpendValidatingKey,
    /// The nullifier deriving key `nk`.
    pub nk: NullifierKey,
}

impl ProofAuthorizingKey {
    /// The validating-key component, as seen by contracts.
    pub open spec fn spec_ak(self) -> Seq<u8> {
        self.ak@
    }

    /// The nullifier-key component, as seen by contracts.
    pub open spec fn spec_nk(self) -> Seq<u8> {
        self.nk@
    }

    /// Pair a validating key with a nullifier key.
    pub fn assemble(ak: SpendValidatingKey, nk: NullifierKey) -> (r: ProofAuthorizingKey)
        ensures
            r.spec_ak() == ak@,
            r.spec_nk() == nk@,
    {
        ProofAuthorizingKey { ak, nk }
    }

    /// The spend validating key `ak`.
    pub fn ak(&self) -> (r: &SpendValidatingKey)
        ensures
            r@ == self.spec_ak(),
    {
        &self.ak
    }

    /// The nullifier deriving key `nk`.
    pub fn nk(&self) -> (r: &NullifierKey)
        ensures
            r@ == self.spec_nk(),
    {
        &self.nk
    }

    /// The key's 64-byte encoding: `ak` followed by `nk`.
    pub fn to_bytes(&self) -> (r: Vec<u8>)
        ensures
            r@ == self.spec_ak() + self.spec_nk(),
    {
        let mut out: Vec<u8> = Vec::new();
        let ak_bytes = self.ak.to_bytes();
        crate::encoding::extend_bytes(&mut out, ak_bytes.as_slice());
        let nk_bytes = self.nk.to_bytes();
        crate::encoding::extend_bytes(&mut out, nk_bytes.as_slice());
        out
    }
}

} // verus!
