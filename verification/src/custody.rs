//! Custody: the delegation boundary for spend authorization.
//!
//! A custody device holds the spend authorizing key `ask` and sees the
//! whole plan — every action and the declared balance — before signing,
//! so it can refuse based on intent. The ordering contract is strict: all
//! value commitments are chosen first, the one sighash is computed from
//! them, and every signature covers that same digest.

use vstd::prelude::*;

use crate::action::Effect;
use crate::bundle::{spec_authorized, AuthorizationData, Plan};
use crate::error::CustodyError;
use crate::keys::{ActionSigningKey, SpendAuthorizingKey};
use crate::primitives::spec_spendauth_public;

verus! {

/// A custody device: holds spend authority and authorizes plans.
///
/// Implementations range from in-memory software custody ([`Local`]) to
/// hardware wallets behind a transport; a device may refuse
/// ([`CustodyError`]) after inspecting the plan.
pub trait Custody {
    /// How this device reports denial or transport failures.
    type Error;

    /// The validating key `ak` that corresponds to the spend authority
    /// this device holds.
    spec fn spec_ak(&self) -> Seq<u8>;

    /// Authorize every action of the plan.
    ///
    /// The device chooses all value commitments first, computes the one
    /// bundle sighash over them, and signs each action over that digest:
    /// spends with `rsk = ask + alpha`, outputs with `rsk = alpha`.
    fn authorize(&self, plan: &Plan, rng: &mut rand::rngs::StdRng) -> (r: Result<
        AuthorizationData,
        Self::Error,
    >)
        ensures
            r matches Ok(auth) ==> spec_authorized(*plan, auth, self.spec_ak()),
    ;
}

/// Software custody: holds `ask` in memory. Suitable for single-device
/// wallets; it never refuses a plan.
#[derive(Clone, Copy, Debug)]
pub struct Local {
    ask: SpendAuthorizingKey,
}

impl Local {
    /// Adopt a spend authorizing key as software custody.
    pub fn new(ask: SpendAuthorizingKey) -> (r: Local)
        ensures
            r.spec_ask() == ask@,
            r.spec_ak() == spec_spendauth_public(ask@),
    {
        Local { ask }
    }

    /// The key this custody signs with, as seen by contracts.
    pub closed spec fn spec_ask(&self) -> Seq<u8> {
        self.ask@
    }

    /// Authorize a plan with the in-memory key. Software custody is
    /// infallible: unlike a hardware device it has no transport to fail
    /// and refuses nothing.
    pub fn authorize_plan(&self, plan: &Plan, rng: &mut rand::rngs::StdRng) -> (r:
        AuthorizationData)
        ensures
            spec_authorized(*plan, r, self.spec_ak()),
    {
        let commitments = plan.commit(rng);
        let h = plan.sighash(&commitments);
        let ghost ak = spec_spendauth_public(self.ask@);
        let mut sigs: Vec<crate::action::Signature> = Vec::new();
        let mut i: usize = 0;
        while i < plan.actions.len()
            invariant
                0 <= i <= plan.actions@.len(),
                commitments@.len() == plan.actions@.len(),
                ak == spec_spendauth_public(self.ask@),
                h@ == crate::bundle::spec_sighash(
                    crate::bundle::spec_plan_pairs(plan.actions@, commitments@),
                    plan.value_balance,
                ),
                sigs@.len() == i,
                forall|j: int|
                    0 <= j < i && (#[trigger] plan.actions@[j]).spec_rk_consistent(ak)
                        ==> crate::primitives::spec_spendauth_verify(
                        plan.actions@[j].rk@,
                        h@,
                        sigs@[j]@,
                    ),
            decreases plan.actions@.len() - i,
        {
            let planned = &plan.actions[i];
            let cm = planned.note.commitment();
            let sig = match planned.effect {
                Effect::Spend => {
                    let alpha = planned.theta.spend_randomizer(&cm);
                    let rsk = self.ask.derive_action_private(&alpha);
                    rsk.sign(&h, rng)
                },
                Effect::Output => {
                    let alpha = planned.theta.output_randomizer(&cm);
                    let rsk = ActionSigningKey::from_output_alpha(&alpha);
                    rsk.sign(&h, rng)
                },
            };
            sigs.push(sig);
            i = i + 1;
        }
        AuthorizationData { sigs, commitments }
    }
}

impl Custody for Local {
    type Error = CustodyError;

    closed spec fn spec_ak(&self) -> Seq<u8> {
        spec_spendauth_public(self.ask@)
    }

    fn authorize(&self, plan: &Plan, rng: &mut rand::rngs::StdRng) -> (r: Result<
        AuthorizationData,
        CustodyError,
    >) {
        Ok(self.authorize_plan(plan, rng))
    }
}

} // verus!
