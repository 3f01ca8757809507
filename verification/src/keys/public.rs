//! Public (verification) keys.

use vstd::prelude::*;

use crate::error::{EncodingError, SignatureError};
use crate::primitives::{
    binding_verify, point_check, spendauth_verify, spec_binding_verify, spec_point_valid,
    spec_spendauth_verify,
};
use crate::{action, bundle, value};

verus! {

/// The per-action verification key `rk` — the only key that verifies
/// action signatures. It is part of the action's public effecting data.
///
/// For spends `rk = ak + [alpha]G`, for outputs `rk = [alpha]G`; a fresh
/// alpha per action makes the keys unlinkable to `ak`.
#[derive(Clone, Copy, Debug)]
pub struct ActionVerificationKey {
    bytes: [u8; 32],
}

impl View for ActionVerificationKey {
    type V = Seq<u8>;

    closed spec fn view(&self) -> Seq<u8> {
        self.bytes@
    }
}

impl PartialEq for ActionVerificationKey {
    fn eq(&self, other: &ActionVerificationKey) -> (r: bool) {
        crate::encoding::bytes32_eq(&self.bytes, &other.bytes)
    }
}

impl vstd::std_specs::cmp::PartialEqSpecImpl for ActionVerificationKey {
    open spec fn obeys_eq_spec() -> bool {
        true
    }

    open spec fn eq_spec(&self, other: &ActionVerificationKey) -> bool {
        self@ == other@
    }
}

impl ActionVerificationKey {
    /// Wrap an encoding the library itself derived.
    pub(crate) fn from_array(bytes: [u8; 32]) -> (r: ActionVerificationKey)
        ensures
            r@ == bytes@,
    {
        ActionVerificationKey { bytes }
    }

    /// Accept a compressed Pallas point encoding as a verification key.
    pub fn from_bytes(bytes: [u8; 32]) -> (r: Result<ActionVerificationKey, EncodingError>)
        ensures
            r is Ok <==> spec_point_valid(bytes@),
            r matches Ok(k) ==> k@ == bytes@,
            r is Err ==> r == Err::<ActionVerificationKey, EncodingError>(
                EncodingError::InvalidPoint,
            ),
    {
        if point_check(&bytes) {
            Ok(ActionVerificationKey { bytes })
        } else {
            Err(EncodingError::InvalidPoint)
        }
    }

    /// The key's 32-byte encoding.
    pub fn to_bytes(&self) -> (r: [u8; 32])
        ensures
            r@ == self@,
    {
        self.bytes
    }

    /// Verify a spend authorization signature over the bundle sighash.
    pub fn verify(
        &self,
        sighash: &bundle::SigHash,
        sig: &action::Signature,
    ) -> (r: Result<(), SignatureError>)
        ensures
            r is Ok <==> spec_spendauth_verify(self@, sighash@, sig@),
    {
        let msg = sighash.to_bytes();
        let sig_bytes = sig.to_bytes();
        if spendauth_verify(&self.bytes, &msg, &sig_bytes) {
            Ok(())
        } else {
            Err(SignatureError)
        }
    }
}

/// The binding verification key `bvk`, recomputed by validators from
/// public data:
///
/// `bvk = (sum of cv_i) - [v_balance]V`
///
/// When the bundle was built honestly the value components cancel and
/// `bvk = [bsk]R`, so the binding signature verifies exactly when the
/// values balance.
#[derive(Clone, Copy, Debug)]
pub struct BindingVerificationKey {
    bytes: [u8; 32],
}

impl View for BindingVerificationKey {
    type V = Seq<u8>;

    closed spec fn view(&self) -> Seq<u8> {
        self.bytes@
    }
}

impl PartialEq for BindingVerificationKey {
    fn eq(&self, other: &BindingVerificationKey) -> (r: bool) {
        crate::encoding::bytes32_eq(&self.bytes, &other.bytes)
    }
}

impl vstd::std_specs::cmp::PartialEqSpecImpl for BindingVerificationKey {
    open spec fn obeys_eq_spec() -> bool {
        true
    }

    open spec fn eq_spec(&self, other: &BindingVerificationKey) -> bool {
        self@ == other@
    }
}

/// The encoding of the validator-side binding verification key for the
/// given value-commitment encodings and balance.
pub open spec fn spec_bvk(cvs: Seq<Seq<u8>>, value_balance: i64) -> Seq<u8> {
    crate::primitives::spec_point_sub(
        value::spec_sum_points(cvs),
        value::spec_balance(value_balance as int),
    )
}

impl BindingVerificationKey {
    /// Wrap an encoding the library itself derived.
    pub(crate) fn from_array(bytes: [u8; 32]) -> (r: BindingVerificationKey)
        ensures
            r@ == bytes@,
    {
        BindingVerificationKey { bytes }
    }

    /// Accept a compressed Pallas point encoding as a binding
    /// verification key.
    pub fn from_bytes(bytes: [u8; 32]) -> (r: Result<BindingVerificationKey, EncodingError>)
        ensures
            r is Ok <==> spec_point_valid(bytes@),
            r matches Ok(k) ==> k@ == bytes@,
            r is Err ==> r == Err::<BindingVerificationKey, EncodingError>(
                EncodingError::InvalidPoint,
            ),
    {
        if point_check(&bytes) {
            Ok(BindingVerificationKey { bytes })
        } else {
            Err(EncodingError::InvalidPoint)
        }
    }

    /// The key's 32-byte encoding.
    pub fn to_bytes(&self) -> (r: [u8; 32])
        ensures
            r@ == self@,
    {
        self.bytes
    }

    /// Derive `bvk` from a bundle's public action data: sum the value
    /// commitments and subtract the deterministic balance commitment.
    pub fn derive(actions: &Vec<action::Action>, value_balance: i64) -> (r: BindingVerificationKey)
        requires
            actions@.len() >= 1,
        ensures
            r@ == spec_bvk(actions@.map_values(|a: action::Action| a.cv@), value_balance),
    {
        let ghost cv_views = actions@.map_values(|a: action::Action| a.cv@);
        let mut cvs: Vec<value::Commitment> = Vec::new();
        let mut i: usize = 0;
        while i < actions.len()
            invariant
                0 <= i <= actions@.len(),
                cvs@.len() == i,
                forall|j: int| 0 <= j < i ==> cvs@[j] == actions@[j].cv,
            decreases actions@.len() - i,
        {
            cvs.push(actions[i].cv);
            i = i + 1;
        }
        proof {
            assert(cvs@.map_values(|c: value::Commitment| c@) =~= cv_views);
        }
        let cv_sum = value::Commitment::sum(&cvs);
        let balance_commit = value::Commitment::balance(value_balance);
        let bvk_point = cv_sum.sub(balance_commit);
        BindingVerificationKey { bytes: bvk_point.to_bytes() }
    }

    /// Verify a binding signature over the bundle sighash.
    pub fn verify(
        &self,
        sighash: &bundle::SigHash,
        sig: &bundle::Signature,
    ) -> (r: Result<(), SignatureError>)
        ensures
            r is Ok <==> spec_binding_verify(self@, sighash@, sig@),
    {
        let msg = sighash.to_bytes();
        let sig_bytes = sig.to_bytes();
        if binding_verify(&self.bytes, &msg, &sig_bytes) {
            Ok(())
        } else {
            Err(SignatureError)
        }
    }
}

} // verus!
