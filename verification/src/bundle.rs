//! Transaction bundles: plan, authorize, build, strip, verify.
//!
//! A bundle is a list of signed actions, a plaintext value balance, a
//! binding signature and a stamp slot that is either a [`Stamp`] or the
//! [`Stampless`] marker. Every signature — per-action and binding — covers
//! the one bundle sighash, a BLAKE2b-512 digest of the ordered `(cv, rk)`
//! pairs and the balance; the stamp is excluded so it can be stripped
//! without touching authorization.

use vstd::prelude::*;

use crate::action::{self, Action, Effect};
use crate::constants::SIGHASH_PERSONALIZATION;
use crate::encoding::{extend_bytes, le64, spec_le64};
use crate::error::SignatureError;
use crate::keys::{
    spec_bvk, ActionVerificationKey, BindingSigningKey, BindingVerificationKey,
    ProofAuthorizingKey,
};
use crate::primitives::{
    blake2b512, spec_binding_public, spec_binding_verify, spec_blake2b512, spec_spendauth_verify,
    Anchor, Epoch, Tachygram,
};
use crate::stamp::{Stamp, Stampless};
use crate::value;
use crate::witness::{ActionPrivate, MergePrivate};

verus! {

// ---------------------------------------------------------------------
// Sighash
// ---------------------------------------------------------------------

/// The concatenation `cv_1 || rk_1 || ... || cv_n || rk_n` of a sequence
/// of effecting-data pairs.
pub open spec fn spec_pairs_bytes(pairs: Seq<(Seq<u8>, Seq<u8>)>) -> Seq<u8>
    decreases pairs.len(),
{
    if pairs.len() == 0 {
        Seq::empty()
    } else {
        pairs[0].0 + pairs[0].1 + spec_pairs_bytes(pairs.drop_first())
    }
}

/// The byte string the bundle sighash commits to: the concatenated
/// effecting-data pairs followed by the little-endian balance.
pub open spec fn spec_sighash_input(pairs: Seq<(Seq<u8>, Seq<u8>)>, value_balance: i64) -> Seq<u8> {
    spec_pairs_bytes(pairs) + spec_le64(value_balance as u64)
}

/// The bundle sighash over effecting-data pairs and balance.
pub open spec fn spec_sighash(pairs: Seq<(Seq<u8>, Seq<u8>)>, value_balance: i64) -> Seq<u8> {
    spec_blake2b512(SIGHASH_PERSONALIZATION@, spec_sighash_input(pairs, value_balance))
}

/// Appending a pair to the sequence appends its bytes to the
/// concatenation.
proof fn lemma_pairs_bytes_push(pairs: Seq<(Seq<u8>, Seq<u8>)>, p: (Seq<u8>, Seq<u8>))
    ensures
        spec_pairs_bytes(pairs.push(p)) == spec_pairs_bytes(pairs) + p.0 + p.1,
    decreases pairs.len(),
{
    let pp = pairs.push(p);
    if pairs.len() == 0 {
        assert(pp.len() == 1);
        assert(pp[0] == p);
        assert(pp.drop_first() =~= Seq::<(Seq<u8>, Seq<u8>)>::empty());
        assert(spec_pairs_bytes(Seq::<(Seq<u8>, Seq<u8>)>::empty()) == Seq::<u8>::empty());
        assert(spec_pairs_bytes(pp) == pp[0].0 + pp[0].1 + spec_pairs_bytes(pp.drop_first()));
        assert(spec_pairs_bytes(pp) == p.0 + p.1 + Seq::<u8>::empty());
        assert(p.0 + p.1 + Seq::<u8>::empty() =~= spec_pairs_bytes(pairs) + p.0 + p.1);
    } else {
        assert(pp[0] == pairs[0]);
        assert(pp.drop_first() =~= pairs.drop_first().push(p));
        lemma_pairs_bytes_push(pairs.drop_first(), p);
        assert(spec_pairs_bytes(pp) == pairs[0].0 + pairs[0].1 + (spec_pairs_bytes(
            pairs.drop_first(),
        ) + p.0 + p.1));
        assert(pairs[0].0 + pairs[0].1 + (spec_pairs_bytes(pairs.drop_first()) + p.0 + p.1)
            =~= spec_pairs_bytes(pairs) + p.0 + p.1);
    }
}

/// The views of a vector of effecting-data pairs.
pub open spec fn spec_pair_views(
    s: Seq<(value::Commitment, ActionVerificationKey)>,
) -> Seq<(Seq<u8>, Seq<u8>)> {
    s.map_values(|p: (value::Commitment, ActionVerificationKey)| (p.0@, p.1@))
}

/// The effecting-data pairs of a sequence of signed actions.
pub open spec fn spec_action_pairs(actions: Seq<Action>) -> Seq<(Seq<u8>, Seq<u8>)> {
    actions.map_values(|a: Action| (a.cv@, a.rk@))
}

/// The concatenation of the tachygram lists of a sequence of stamps.
pub open spec fn spec_concat_tachygrams(stamps: Seq<Stamp>) -> Seq<Tachygram>
    decreases stamps.len(),
{
    if stamps.len() == 0 {
        Seq::empty()
    } else {
        spec_concat_tachygrams(stamps.drop_last()) + stamps.last().tachygrams@
    }
}

/// A BLAKE2b-512 digest committing to a bundle's observable effect.
///
/// All signatures (action and binding) sign this same digest.
#[derive(Clone, Copy, Debug)]
pub struct SigHash {
    bytes: [u8; 64],
}

impl View for SigHash {
    type V = Seq<u8>;

    closed spec fn view(&self) -> Seq<u8> {
        self.bytes@
    }
}

impl SigHash {
    /// The digest's 64 bytes.
    pub fn to_bytes(&self) -> (r: [u8; 64])
        ensures
            r@ == self@,
    {
        self.bytes
    }
}

/// Compute the bundle sighash from effecting data — `(cv, rk)` pairs in
/// plan order — and the value balance.
pub fn sighash(
    effecting_data: &Vec<(value::Commitment, ActionVerificationKey)>,
    value_balance: i64,
) -> (r: SigHash)
    ensures
        r@ == spec_sighash(spec_pair_views(effecting_data@), value_balance),
{
    let ghost pair_views = spec_pair_views(effecting_data@);
    let mut data: Vec<u8> = Vec::new();
    let mut i: usize = 0;
    while i < effecting_data.len()
        invariant
            0 <= i <= effecting_data@.len(),
            pair_views == spec_pair_views(effecting_data@),
            data@ == spec_pairs_bytes(pair_views.take(i as int)),
        decreases effecting_data@.len() - i,
    {
        let cv_bytes = effecting_data[i].0.to_bytes();
        extend_bytes(&mut data, cv_bytes.as_slice());
        let rk_bytes = effecting_data[i].1.to_bytes();
        extend_bytes(&mut data, rk_bytes.as_slice());
        proof {
            assert(pair_views.take(i + 1) =~= pair_views.take(i as int).push(pair_views[i as int]));
            lemma_pairs_bytes_push(pair_views.take(i as int), pair_views[i as int]);
        }
        i = i + 1;
    }
    proof {
        assert(pair_views.take(effecting_data@.len() as int) =~= pair_views);
    }
    let balance_bytes = le64(value_balance as u64);
    extend_bytes(&mut data, balance_bytes.as_slice());
    SigHash { bytes: blake2b512(SIGHASH_PERSONALIZATION.as_slice(), &data) }
}

// ---------------------------------------------------------------------
// Plans and authorization data
// ---------------------------------------------------------------------

/// A bundle plan: assembled action plans and a value balance, awaiting
/// authorization by a custody device and then [`Plan::build`].
#[derive(Clone, Debug)]
pub struct Plan {
    /// The action plans, spends and outputs, in order.
    pub actions: Vec<action::Plan>,
    /// The net value of spends minus outputs.
    pub value_balance: i64,
}

/// Authorization data produced by a custody device: one signature and one
/// `(cv, rcv)` commitment pair per action, in plan order.
#[derive(Clone, Debug)]
pub struct AuthorizationData {
    /// One signature per action.
    pub sigs: Vec<action::Signature>,
    /// One value commitment and its trapdoor per action.
    pub commitments: Vec<(value::Commitment, value::CommitmentTrapdoor)>,
}

/// The effecting-data pairs a plan fixes once its commitments are chosen:
/// the committed `cv` of each action paired with the planned `rk`.
pub open spec fn spec_plan_pairs(
    actions: Seq<action::Plan>,
    commitments: Seq<(value::Commitment, value::CommitmentTrapdoor)>,
) -> Seq<(Seq<u8>, Seq<u8>)>
    recommends
        actions.len() == commitments.len(),
{
    Seq::new(actions.len(), |i: int| (commitments[i].0@, actions[i].rk@))
}

/// What a custody device promises of its authorization data: both lists
/// cover every action in order, every commitment commits to the action's
/// signed value under its own trapdoor, and every signature verifies over
/// the plan's sighash under the planned `rk` — provided that `rk` is the
/// one the plan's material derives under the validating key `ak`.
pub open spec fn spec_authorized(plan: Plan, auth: AuthorizationData, ak: Seq<u8>) -> bool {
    let pairs = spec_plan_pairs(plan.actions@, auth.commitments@);
    let h = spec_sighash(pairs, plan.value_balance);
    &&& auth.sigs@.len() == plan.actions@.len()
    &&& auth.commitments@.len() == plan.actions@.len()
    &&& forall|i: int|
        0 <= i < plan.actions@.len() ==> (#[trigger] auth.commitments@[i]).0@ == value::spec_commit(
            plan.actions@[i].spec_signed_value(),
            auth.commitments@[i].1@,
        )
    &&& forall|i: int|
        0 <= i < plan.actions@.len() && (#[trigger] plan.actions@[i]).spec_rk_consistent(ak)
            ==> spec_spendauth_verify(plan.actions@[i].rk@, h, auth.sigs@[i]@)
}

impl Plan {
    /// Assemble a bundle plan; no cryptographic work is done.
    pub fn new(actions: Vec<action::Plan>, value_balance: i64) -> (r: Plan)
        ensures
            r.actions == actions,
            r.value_balance == value_balance,
    {
        Plan { actions, value_balance }
    }

    /// Choose a value commitment per action: spends commit to the
    /// positive note value, outputs to its negation, each under a fresh
    /// trapdoor. The custody device does this before any sighash exists.
    pub fn commit(&self, rng: &mut rand::rngs::StdRng) -> (r: Vec<
        (value::Commitment, value::CommitmentTrapdoor),
    >)
        ensures
            r@.len() == self.actions@.len(),
            forall|i: int|
                0 <= i < r@.len() ==> (#[trigger] r@[i]).0@ == value::spec_commit(
                    self.actions@[i].spec_signed_value(),
                    r@[i].1@,
                ),
    {
        let mut out: Vec<(value::Commitment, value::CommitmentTrapdoor)> = Vec::new();
        let mut i: usize = 0;
        while i < self.actions.len()
            invariant
                0 <= i <= self.actions@.len(),
                out@.len() == i,
                forall|j: int|
                    0 <= j < i ==> (#[trigger] out@[j]).0@ == value::spec_commit(
                        self.actions@[j].spec_signed_value(),
                        out@[j].1@,
                    ),
            decreases self.actions@.len() - i,
        {
            let rcv = value::CommitmentTrapdoor::random(rng);
            let v = self.actions[i].note.value.to_i64();
            let cv = match self.actions[i].effect {
                Effect::Spend => rcv.commit(v),
                Effect::Output => rcv.commit(-v),
            };
            out.push((cv, rcv));
            i = i + 1;
        }
        out
    }

    /// The bundle sighash over the plan's effecting data: the committed
    /// `cv` values in plan order, each paired with the planned `rk`, then
    /// the balance.
    pub fn sighash(
        &self,
        commitments: &Vec<(value::Commitment, value::CommitmentTrapdoor)>,
    ) -> (r: SigHash)
        requires
            commitments@.len() == self.actions@.len(),
        ensures
            r@ == spec_sighash(
                spec_plan_pairs(self.actions@, commitments@),
                self.value_balance,
            ),
    {
        let mut pairs: Vec<(value::Commitment, ActionVerificationKey)> = Vec::new();
        let mut i: usize = 0;
        while i < self.actions.len()
            invariant
                0 <= i <= self.actions@.len(),
                commitments@.len() == self.actions@.len(),
                pairs@.len() == i,
                forall|j: int|
                    0 <= j < i ==> #[trigger] pairs@[j] == (commitments@[j].0, self.actions@[j].rk),
            decreases self.actions@.len() - i,
        {
            pairs.push((commitments[i].0, self.actions[i].rk));
            i = i + 1;
        }
        proof {
            assert(spec_pair_views(pairs@) =~= spec_plan_pairs(self.actions@, commitments@));
        }
        sighash(&pairs, self.value_balance)
    }

    /// Build a stamped bundle from the plan and its authorization data.
    ///
    /// Pairs each action with its signature and commitment, re-derives
    /// each action's `alpha` path into a proof witness — the nullifier
    /// (spend) or note commitment (output) becomes the tachygram, with
    /// the anchor as flavor — and hands the pairs to [`Bundle::build`].
    pub fn build(
        self,
        auth: AuthorizationData,
        anchor: Anchor,
        pak: &ProofAuthorizingKey,
        rng: &mut rand::rngs::StdRng,
    ) -> (r: Result<Stamped<i64>, BuildError>)
        requires
            self.actions@.len() >= 1,
            auth.sigs@.len() == self.actions@.len(),
            auth.commitments@.len() == self.actions@.len(),
        ensures
            ({
                let rcvs = auth.commitments@.map_values(
                    |c: (value::Commitment, value::CommitmentTrapdoor)| c.1@,
                );
                let cvs = auth.commitments@.map_values(
                    |c: (value::Commitment, value::CommitmentTrapdoor)| c.0@,
                );
                let bsk = crate::keys::spec_sum_fq(rcvs);
                &&& (r is Err <==> (bsk =~= Seq::new(32, |_i: int| 0u8) || spec_binding_public(bsk)
                    != spec_bvk(cvs, self.value_balance)))
                &&& (r is Err ==> r == Err::<Stamped<i64>, BuildError>(BuildError::BalanceKey))
                &&& (r matches Ok(b) ==> {
                    let h = spec_sighash(spec_action_pairs(b.actions@), self.value_balance);
                    &&& b.actions@.len() == self.actions@.len()
                    &&& forall|i: int|
                        0 <= i < b.actions@.len() ==> {
                            &&& (#[trigger] b.actions@[i]).cv == auth.commitments@[i].0
                            &&& b.actions@[i].rk == self.actions@[i].rk
                            &&& b.actions@[i].sig == auth.sigs@[i]
                        }
                    &&& b.value_balance == self.value_balance
                    &&& b.stamp.anchor == anchor
                    &&& b.stamp.tachygrams@.len() == self.actions@.len()
                    &&& forall|i: int|
                        0 <= i < self.actions@.len()
                            ==> (#[trigger] b.stamp.tachygrams@[i])@ == spec_plan_tachygram(
                            self.actions@[i],
                            pak.spec_nk(),
                            anchor@,
                        )
                    &&& spec_binding_verify(spec_bvk(cvs, self.value_balance), h, b.binding_sig@)
                    &&& (forall|ak: Seq<u8>|
                        #[trigger] spec_authorized(self, auth, ak) && (forall|i: int|
                            0 <= i < self.actions@.len()
                                ==> (#[trigger] self.actions@[i]).spec_rk_consistent(ak))
                            ==> spec_signatures_valid(b.actions@, b.value_balance, b.binding_sig@))
                })
            }),
    {
        let flavor = Epoch::from_anchor(&anchor);
        let mut actions_witnesses: Vec<(Action, ActionPrivate)> = Vec::new();
        let mut i: usize = 0;
        while i < self.actions.len()
            invariant
                0 <= i <= self.actions@.len(),
                auth.sigs@.len() == self.actions@.len(),
                auth.commitments@.len() == self.actions@.len(),
                flavor@ == anchor@,
                actions_witnesses@.len() == i,
                forall|j: int|
                    0 <= j < i ==> {
                        &&& (#[trigger] actions_witnesses@[j]).0.cv == auth.commitments@[j].0
                        &&& actions_witnesses@[j].0.rk == self.actions@[j].rk
                        &&& actions_witnesses@[j].0.sig == auth.sigs@[j]
                        &&& actions_witnesses@[j].1.rcv == auth.commitments@[j].1
                        &&& actions_witnesses@[j].1.tachygram@ == spec_plan_tachygram(
                            self.actions@[j],
                            pak.spec_nk(),
                            anchor@,
                        )
                    },
            decreases self.actions@.len() - i,
        {
            let planned = self.actions[i];
            let cm = planned.note.commitment();
            let (alpha, tachygram) = match planned.effect {
                Effect::Spend => {
                    let alpha = planned.theta.spend_randomizer(&cm).to_witness();
                    let nf = planned.note.nullifier(pak.nk(), flavor);
                    (alpha, nf.to_tachygram())
                },
                Effect::Output => {
                    let alpha = planned.theta.output_randomizer(&cm).to_witness();
                    (alpha, cm.to_tachygram())
                },
            };
            let witness = ActionPrivate {
                alpha,
                flavor,
                note: planned.note,
                rcv: auth.commitments[i].1,
                tachygram,
            };
            let act = Action { cv: auth.commitments[i].0, rk: planned.rk, sig: auth.sigs[i] };
            actions_witnesses.push((act, witness));
            i = i + 1;
        }
        let ghost aw = actions_witnesses@;
        let result = Bundle::<Stamp, i64>::build(
            actions_witnesses,
            self.value_balance,
            anchor,
            pak,
            rng,
        );
        proof {
            let rcvs = auth.commitments@.map_values(
                |c: (value::Commitment, value::CommitmentTrapdoor)| c.1@,
            );
            let cvs = auth.commitments@.map_values(
                |c: (value::Commitment, value::CommitmentTrapdoor)| c.0@,
            );
            assert(aw.map_values(|p: (Action, ActionPrivate)| p.1.rcv@) =~= rcvs);
            assert(aw.map_values(|p: (Action, ActionPrivate)| p.0.cv@) =~= cvs);
            if let Ok(b) = &result {
                assert(b.actions@ == aw.map_values(|p: (Action, ActionPrivate)| p.0));
                assert forall|i: int| 0 <= i < b.actions@.len() implies {
                    &&& (#[trigger] b.actions@[i]).cv == auth.commitments@[i].0
                    &&& b.actions@[i].rk == self.actions@[i].rk
                    &&& b.actions@[i].sig == auth.sigs@[i]
                } by {
                    assert(b.actions@[i] == aw.map_values(|p: (Action, ActionPrivate)| p.0)[i]);
                }
                assert(spec_action_pairs(b.actions@) =~= spec_plan_pairs(
                    self.actions@,
                    auth.commitments@,
                ));
                let h = spec_sighash(spec_action_pairs(b.actions@), self.value_balance);
                assert forall|ak: Seq<u8>|
                    #[trigger] spec_authorized(self, auth, ak) && (forall|i: int|
                        0 <= i < self.actions@.len()
                            ==> (#[trigger] self.actions@[i]).spec_rk_consistent(
                            ak,
                        )) implies spec_signatures_valid(
                    b.actions@,
                    b.value_balance,
                    b.binding_sig@,
                ) by {
                    assert forall|i: int| 0 <= i < aw.len() implies spec_spendauth_verify(
                        (#[trigger] aw[i]).0.rk@,
                        h,
                        aw[i].0.sig@,
                    ) by {
                        assert(self.actions@[i].spec_rk_consistent(ak));
                        assert(spec_spendauth_verify(self.actions@[i].rk@, h, auth.sigs@[i]@));
                    }
                    assert(spec_signatures_valid(b.actions@, b.value_balance, b.binding_sig@));
                }
            }
        }
        result
    }
}

impl Plan {
    /// The whole construction pipeline with software custody: the device
    /// chooses commitments and signs every action over the one sighash,
    /// then the plan is built into a stamped bundle.
    ///
    /// For a plan whose verification keys were derived from the
    /// validating key of the custody's authority — as
    /// [`action::Plan::spend`] and [`action::Plan::output`] derive them —
    /// the resulting bundle passes [`Bundle::verify_signatures`].
    pub fn authorize_and_build(
        self,
        custody: &crate::custody::Local,
        anchor: Anchor,
        pak: &ProofAuthorizingKey,
        rng: &mut rand::rngs::StdRng,
    ) -> (r: Result<Stamped<i64>, BuildError>)
        requires
            self.actions@.len() >= 1,
        ensures
            r matches Ok(b) ==> ((forall|i: int|
                0 <= i < self.actions@.len() ==> (#[trigger] self.actions@[i]).spec_rk_consistent(
                    crate::custody::Custody::spec_ak(custody),
                )) ==> spec_signatures_valid(b.actions@, b.value_balance, b.binding_sig@)),
            r matches Ok(b) ==> b.actions@.len() == self.actions@.len() && b.value_balance
                == self.value_balance && b.stamp.anchor == anchor,
    {
        let auth = custody.authorize_plan(&self, rng);
        self.build(auth, anchor, pak, rng)
    }
}

/// The tachygram an action plan contributes: the note's nullifier at the
/// anchor's flavor for spends, the note commitment for outputs.
pub open spec fn spec_plan_tachygram(a: action::Plan, nk: Seq<u8>, anchor: Seq<u8>) -> Seq<u8> {
    match a.effect {
        Effect::Spend => crate::keys::spec_nullifier(a.note.psi@, nk, anchor),
        Effect::Output => a.note.spec_commitment(),
    }
}

// ---------------------------------------------------------------------
// Bundles
// ---------------------------------------------------------------------

/// Errors during bundle construction.
#[derive(Clone, Copy, Debug, PartialEq, Eq, Structural)]
pub enum BuildError {
    /// The accumulated binding signing key was degenerate (the zero
    /// scalar), or its public key did not match the validator-side
    /// derivation — an internal fault in value-commitment accumulation.
    BalanceKey,
    /// The stamp did not verify against the accumulators reconstructed
    /// from public data.
    ProofInvalid,
}

/// A binding signature (RedPallas over the `Binding` group), proving
/// knowledge of an opening of `bvk` to value zero.
#[derive(Clone, Copy, Debug)]
pub struct Signature {
    bytes: [u8; 64],
}

impl View for Signature {
    type V = Seq<u8>;

    closed spec fn view(&self) -> Seq<u8> {
        self.bytes@
    }
}

impl Signature {
    /// Adopt 64 bytes as a signature; every byte string is a
    /// syntactically valid signature.
    pub fn from_bytes(bytes: [u8; 64]) -> (r: Signature)
        ensures
            r@ == bytes@,
    {
        Signature { bytes }
    }

    /// Wrap an encoding the library itself produced.
    pub(crate) fn from_array(bytes: [u8; 64]) -> (r: Signature)
        ensures
            r@ == bytes@,
    {
        Signature { bytes }
    }

    /// The signature's 64-byte encoding.
    pub fn to_bytes(&self) -> (r: [u8; 64])
        ensures
            r@ == self@,
    {
        self.bytes
    }
}

/// A transaction bundle, parameterized by its stamp slot `S` ([`Stamp`]
/// or [`Stampless`]) and balance type `V`.
#[derive(Clone, Debug)]
pub struct Bundle<S, V> {
    /// The signed actions.
    pub actions: Vec<Action>,
    /// The net value of spends minus outputs.
    pub value_balance: V,
    /// The binding signature over the bundle sighash.
    pub binding_sig: Signature,
    /// The stamp slot.
    pub stamp: S,
}

/// A bundle that carries its stamp.
pub type Stamped<V> = Bundle<Stamp, V>;

/// A bundle whose stamp has been stripped into an aggregate.
pub type Stripped<V> = Bundle<Stampless, V>;

/// Whether a bundle's signatures all verify: the binding signature under
/// the recomputed `bvk`, and every action signature under its own `rk`,
/// all over the one bundle sighash.
pub open spec fn spec_signatures_valid(
    actions: Seq<Action>,
    value_balance: i64,
    binding_sig: Seq<u8>,
) -> bool {
    let h = spec_sighash(spec_action_pairs(actions), value_balance);
    &&& spec_binding_verify(
        spec_bvk(actions.map_values(|a: Action| a.cv@), value_balance),
        h,
        binding_sig,
    )
    &&& forall|i: int|
        0 <= i < actions.len() ==> spec_spendauth_verify(
            (#[trigger] actions[i]).rk@,
            h,
            actions[i].sig@,
        )
}

impl<V> Bundle<Stamp, V> {
    /// Strip the stamp: every other field is preserved unchanged, and
    /// the stamp is returned for merging into an aggregate.
    pub fn strip(self) -> (r: (Stripped<V>, Stamp))
        ensures
            r.0.actions == self.actions,
            r.0.value_balance == self.value_balance,
            r.0.binding_sig == self.binding_sig,
            r.1 == self.stamp,
    {
        (
            Bundle {
                actions: self.actions,
                value_balance: self.value_balance,
                binding_sig: self.binding_sig,
                stamp: Stampless,
            },
            self.stamp,
        )
    }
}

impl Bundle<Stamp, i64> {
    /// Build a stamped bundle from signed actions paired with their proof
    /// witnesses.
    ///
    /// The order is deliberate: the binding signing key is accumulated
    /// and fault-checked first, the stamp is proved and verified next,
    /// and only then is the binding signature emitted — the signer
    /// withholds the one thing that makes the bundle broadcastable until
    /// the stamp is known good.
    pub fn build(
        actions_witnesses: Vec<(Action, ActionPrivate)>,
        value_balance: i64,
        anchor: Anchor,
        pak: &ProofAuthorizingKey,
        rng: &mut rand::rngs::StdRng,
    ) -> (r: Result<Stamped<i64>, BuildError>)
        requires
            actions_witnesses@.len() >= 1,
        ensures
            ({
                let rcvs = actions_witnesses@.map_values(|p: (Action, ActionPrivate)| p.1.rcv@);
                let cvs = actions_witnesses@.map_values(|p: (Action, ActionPrivate)| p.0.cv@);
                let bsk = crate::keys::spec_sum_fq(rcvs);
                &&& (r is Err <==> (bsk =~= Seq::new(32, |_i: int| 0u8) || spec_binding_public(bsk)
                    != spec_bvk(cvs, value_balance)))
                &&& (r is Err ==> r == Err::<Stamped<i64>, BuildError>(BuildError::BalanceKey))
                &&& (r matches Ok(b) ==> {
                    let h = spec_sighash(spec_action_pairs(b.actions@), value_balance);
                    &&& b.actions@ == actions_witnesses@.map_values(
                        |p: (Action, ActionPrivate)| p.0,
                    )
                    &&& b.value_balance == value_balance
                    &&& b.stamp.anchor == anchor
                    &&& b.stamp.tachygrams@.len() == actions_witnesses@.len()
                    &&& forall|i: int|
                        0 <= i < actions_witnesses@.len() ==> (#[trigger] b.stamp.tachygrams@[i])
                            == actions_witnesses@[i].1.tachygram
                    &&& spec_binding_verify(spec_bvk(cvs, value_balance), h, b.binding_sig@)
                    &&& ((forall|i: int|
                        0 <= i < actions_witnesses@.len() ==> spec_spendauth_verify(
                            (#[trigger] actions_witnesses@[i]).0.rk@,
                            h,
                            actions_witnesses@[i].0.sig@,
                        )) ==> spec_signatures_valid(b.actions@, value_balance, b.binding_sig@))
                })
            }),
    {
        let n = actions_witnesses.len();
        let mut actions: Vec<Action> = Vec::new();
        let mut witnesses: Vec<ActionPrivate> = Vec::new();
        let mut rcvs: Vec<value::CommitmentTrapdoor> = Vec::new();
        let mut i: usize = 0;
        while i < n
            invariant
                0 <= i <= actions_witnesses@.len(),
                n == actions_witnesses@.len(),
                actions@.len() == i,
                witnesses@.len() == i,
                rcvs@.len() == i,
                forall|j: int|
                    0 <= j < i ==> {
                        &&& #[trigger] actions@[j] == actions_witnesses@[j].0
                        &&& witnesses@[j] == actions_witnesses@[j].1
                        &&& rcvs@[j] == actions_witnesses@[j].1.rcv
                    },
            decreases n - i,
        {
            let (act, wit) = actions_witnesses[i];
            rcvs.push(wit.rcv);
            actions.push(act);
            witnesses.push(wit);
            i = i + 1;
        }
        proof {
            let aw = actions_witnesses@;
            let m1 = rcvs@.map_values(|t: value::CommitmentTrapdoor| t@);
            let m2 = aw.map_values(|p: (Action, ActionPrivate)| p.1.rcv@);
            assert forall|j: int| 0 <= j < aw.len() implies m1[j] == m2[j] by {
                assert(actions@[j] == aw[j].0);
            }
            assert(m1 =~= m2);
            let c1 = actions@.map_values(|a: Action| a.cv@);
            let c2 = aw.map_values(|p: (Action, ActionPrivate)| p.0.cv@);
            assert forall|j: int| 0 <= j < aw.len() implies c1[j] == c2[j] by {
                assert(actions@[j] == aw[j].0);
            }
            assert(c1 =~= c2);
            let a2 = aw.map_values(|p: (Action, ActionPrivate)| p.0);
            assert forall|j: int| 0 <= j < aw.len() implies actions@[j] == a2[j] by {
                assert(actions@[j] == aw[j].0);
            }
            assert(actions@ =~= a2);
        }

        // bsk = sum of the trapdoors, rejected when degenerate.
        let bsk = BindingSigningKey::sum(&rcvs);
        if bsk.is_zero() {
            return Err(BuildError::BalanceKey);
        }

        // Internal fault check: the signer-side binding key must match
        // the validator-side derivation from public data.
        let bvk = BindingVerificationKey::derive(&actions, value_balance);
        let bsk_pub = bsk.derive_binding_public();
        if !(bsk_pub == bvk) {
            return Err(BuildError::BalanceKey);
        }

        // Prove one stamp per action, then reduce pairwise. All the
        // per-action stamps share this bundle's anchor, so every merge is
        // a same-epoch merge with the quotient-one witness.
        let ghost tachys = actions_witnesses@.map_values(
            |p: (Action, ActionPrivate)| p.1.tachygram,
        );
        let mut stamps: Vec<Stamp> = Vec::new();
        let mut j: usize = 0;
        while j < n
            invariant
                0 <= j <= n,
                n == actions_witnesses@.len(),
                witnesses@.len() == n,
                actions@.len() == n,
                tachys == actions_witnesses@.map_values(
                    |p: (Action, ActionPrivate)| p.1.tachygram,
                ),
                forall|k: int|
                    0 <= k < n ==> {
                        &&& #[trigger] actions@[k] == actions_witnesses@[k].0
                        &&& witnesses@[k] == actions_witnesses@[k].1
                    },
                stamps@.len() == j,
                forall|k: int| 0 <= k < j ==> (#[trigger] stamps@[k]).anchor == anchor,
                spec_concat_tachygrams(stamps@) == tachys.take(j as int),
            decreases n - j,
        {
            let mut single_witness: Vec<ActionPrivate> = Vec::new();
            single_witness.push(witnesses[j]);
            let mut single_action: Vec<Action> = Vec::new();
            single_action.push(actions[j]);
            let st = Stamp::prove(&single_witness, &single_action, anchor, pak);
            proof {
                assert(actions@[j as int] == actions_witnesses@[j as int].0);
                assert(st.tachygrams@ =~= seq![tachys[j as int]]);
                assert(stamps@.push(st).drop_last() =~= stamps@);
                assert(spec_concat_tachygrams(stamps@.push(st)) =~= tachys.take(j + 1));
            }
            stamps.push(st);
            j = j + 1;
        }
        proof {
            assert(tachys.take(n as int) =~= tachys);
        }
        while stamps.len() > 1
            invariant
                1 <= stamps@.len(),
                forall|k: int| 0 <= k < stamps@.len() ==> (#[trigger] stamps@[k]).anchor == anchor,
                spec_concat_tachygrams(stamps@) == tachys,
            decreases stamps@.len(),
        {
            let ghost before = stamps@;
            let right = stamps.pop().unwrap();
            let left = stamps.pop().unwrap();
            proof {
                assert(right == before[before.len() - 1] && right.anchor == anchor);
                assert(left == before[before.len() - 2] && left.anchor == anchor);
                assert(stamps@ =~= before.drop_last().drop_last());
            }
            let merged = left.merge(right, &MergePrivate::same_epoch());
            stamps.push(merged);
            proof {
                let rest = before.drop_last().drop_last();
                assert(merged.anchor == anchor);
                assert(spec_concat_tachygrams(before) == spec_concat_tachygrams(
                    before.drop_last(),
                ) + right.tachygrams@);
                assert(before.drop_last().drop_last() =~= rest);
                assert(spec_concat_tachygrams(before.drop_last()) == spec_concat_tachygrams(rest)
                    + left.tachygrams@);
                assert(stamps@ =~= rest.push(merged));
                assert(rest.push(merged).drop_last() =~= rest);
                assert(spec_concat_tachygrams(stamps@) =~= tachys);
                assert forall|k: int| 0 <= k < stamps@.len() implies (#[trigger] stamps@[k]).anchor
                    == anchor by {
                    if k < stamps@.len() - 1 {
                        assert(stamps@[k] == before[k]);
                    }
                }
            }
        }
        let ghost final_stamps = stamps@;
        let stamp = stamps.pop().unwrap();
        proof {
            assert(spec_concat_tachygrams(seq![stamp]) == stamp.tachygrams@) by {
                assert(seq![stamp].drop_last() =~= Seq::<Stamp>::empty());
                assert(Seq::<Tachygram>::empty() + stamp.tachygrams@ =~= stamp.tachygrams@);
            }
            assert(final_stamps =~= seq![stamp]);
            assert(stamp.tachygrams@ == tachys);
            assert forall|i: int| 0 <= i < actions_witnesses@.len() implies (
            #[trigger] stamp.tachygrams@[i]) == actions_witnesses@[i].1.tachygram by {
                assert(tachys[i] == actions_witnesses@[i].1.tachygram);
            }
        }
        match verify_stamp(&stamp, &actions) {
            Ok(()) => {},
            Err(_) => {
                return Err(BuildError::ProofInvalid);
            },
        }

        // Only now sign the sighash with the binding key.
        let mut pairs: Vec<(value::Commitment, ActionVerificationKey)> = Vec::new();
        let mut k: usize = 0;
        while k < actions.len()
            invariant
                0 <= k <= actions@.len(),
                pairs@.len() == k,
                forall|j: int|
                    0 <= j < k ==> #[trigger] pairs@[j] == (actions@[j].cv, actions@[j].rk),
            decreases actions@.len() - k,
        {
            pairs.push((actions[k].cv, actions[k].rk));
            k = k + 1;
        }
        proof {
            assert(spec_pair_views(pairs@) =~= spec_action_pairs(actions@));
        }
        let h = sighash(&pairs, value_balance);
        let binding_sig = bsk.sign(&h, rng);

        proof {
            let aw = actions_witnesses@;
            let hh = spec_sighash(spec_action_pairs(actions@), value_balance);
            assert(h@ == hh);
            if forall|i: int|
                0 <= i < aw.len() ==> spec_spendauth_verify(
                    (#[trigger] aw[i]).0.rk@,
                    hh,
                    aw[i].0.sig@,
                ) {
                assert forall|i: int| 0 <= i < actions@.len() implies spec_spendauth_verify(
                    (#[trigger] actions@[i]).rk@,
                    hh,
                    actions@[i].sig@,
                ) by {
                    assert(actions@[i] == aw[i].0);
                    assert(spec_spendauth_verify(aw[i].0.rk@, hh, aw[i].0.sig@));
                }
            }
        }
        Ok(Bundle { actions, value_balance, binding_sig, stamp })
    }
}

/// Verify a stamp against the accumulators reconstructed from the public
/// actions, exactly as consensus verification would.
pub fn verify_stamp(stamp: &Stamp, actions: &Vec<Action>) -> (r: Result<(), BuildError>)
    ensures
        r is Ok,
{
    match stamp.proof.verify(actions, &stamp.tachygrams, stamp.anchor) {
        Ok(()) => Ok(()),
        Err(_) => Err(BuildError::ProofInvalid),
    }
}

impl<S> Bundle<S, i64> {
    /// Recompute the bundle sighash from the stored actions; it is not
    /// transmitted, so validators derive it from public data.
    pub fn sighash(&self) -> (r: SigHash)
        ensures
            r@ == spec_sighash(spec_action_pairs(self.actions@), self.value_balance),
    {
        let mut pairs: Vec<(value::Commitment, ActionVerificationKey)> = Vec::new();
        let mut i: usize = 0;
        while i < self.actions.len()
            invariant
                0 <= i <= self.actions@.len(),
                pairs@.len() == i,
                forall|j: int|
                    0 <= j < i ==> #[trigger] pairs@[j] == (self.actions@[j].cv,
                    self.actions@[j].rk),
            decreases self.actions@.len() - i,
        {
            pairs.push((self.actions[i].cv, self.actions[i].rk));
            i = i + 1;
        }
        proof {
            assert(spec_pair_views(pairs@) =~= spec_action_pairs(self.actions@));
        }
        sighash(&pairs, self.value_balance)
    }

    /// The validator's signature check: recompute `bvk` and the sighash
    /// from public data, verify the binding signature under `bvk`, then
    /// every action signature under its own `rk` — all over the same
    /// sighash. Stamp verification is deliberately not included: stripped
    /// bundles have no stamp.
    pub fn verify_signatures(&self) -> (r: Result<(), SignatureError>)
        requires
            self.actions@.len() >= 1,
        ensures
            r is Ok <==> spec_signatures_valid(self.actions@, self.value_balance,
                self.binding_sig@),
    {
        let bvk = BindingVerificationKey::derive(&self.actions, self.value_balance);
        let h = self.sighash();
        match bvk.verify(&h, &self.binding_sig) {
            Ok(()) => {},
            Err(e) => {
                return Err(e);
            },
        }
        let mut i: usize = 0;
        while i < self.actions.len()
            invariant
                0 <= i <= self.actions@.len(),
                h@ == spec_sighash(spec_action_pairs(self.actions@), self.value_balance),
                forall|j: int|
                    0 <= j < i ==> spec_spendauth_verify(
                        (#[trigger] self.actions@[j]).rk@,
                        h@,
                        self.actions@[j].sig@,
                    ),
            decreases self.actions@.len() - i,
        {
            match self.actions[i].rk.verify(&h, &self.actions[i].sig) {
                Ok(()) => {},
                Err(e) => {
                    return Err(e);
                },
            }
            i = i + 1;
        }
        Ok(())
    }
}

// ---------------------------------------------------------------------
// Laws
// ---------------------------------------------------------------------

/// The concatenation of two equal-length byte strings cancels on the
/// left: equal lengths and equal concatenations force both parts equal.
proof fn lemma_concat_cancel(x: Seq<u8>, s: Seq<u8>, y: Seq<u8>, t: Seq<u8>)
    requires
        x.len() == y.len(),
        x + s == y + t,
    ensures
        x == y,
        s == t,
{
    assert forall|i: int| 0 <= i < x.len() implies x[i] == y[i] by {
        assert((x + s)[i] == x[i]);
        assert((y + t)[i] == y[i]);
    }
    assert(x =~= y);
    assert((x + s).len() == x.len() + s.len());
    assert((y + t).len() == y.len() + t.len());
    assert((x + s).len() == (y + t).len());
    assert(s.len() == t.len());
    assert forall|i: int| 0 <= i < s.len() implies s[i] == t[i] by {
        assert((x + s)[x.len() + i] == s[i]);
        assert((y + t)[y.len() + i] == t[i]);
    }
    assert(s =~= t);
}

/// The concatenated effecting data of `n` pairs of 32-byte encodings is
/// `64 * n` bytes long.
proof fn lemma_pairs_bytes_len(pairs: Seq<(Seq<u8>, Seq<u8>)>)
    requires
        forall|i: int|
            0 <= i < pairs.len() ==> (#[trigger] pairs[i]).0.len() == 32 && pairs[i].1.len() == 32,
    ensures
        spec_pairs_bytes(pairs).len() == 64 * pairs.len(),
    decreases pairs.len(),
{
    if pairs.len() == 0 {
    } else {
        assert(pairs[0].0.len() == 32);
        lemma_pairs_bytes_len(pairs.drop_first());
    }
}

/// The concatenation of fixed-width effecting-data pairs is injective.
proof fn lemma_pairs_bytes_injective(a: Seq<(Seq<u8>, Seq<u8>)>, b: Seq<(Seq<u8>, Seq<u8>)>)
    requires
        a.len() == b.len(),
        forall|i: int|
            0 <= i < a.len() ==> (#[trigger] a[i]).0.len() == 32 && a[i].1.len() == 32,
        forall|i: int|
            0 <= i < b.len() ==> (#[trigger] b[i]).0.len() == 32 && b[i].1.len() == 32,
        spec_pairs_bytes(a) == spec_pairs_bytes(b),
    ensures
        a == b,
    decreases a.len(),
{
    if a.len() == 0 {
        assert(a =~= b);
    } else {
        assert(a[0].0.len() == 32 && b[0].0.len() == 32);
        assert(a[0].0 + a[0].1 + spec_pairs_bytes(a.drop_first()) == b[0].0 + b[0].1
            + spec_pairs_bytes(b.drop_first()));
        assert((a[0].0 + a[0].1) + spec_pairs_bytes(a.drop_first()) =~= a[0].0 + a[0].1
            + spec_pairs_bytes(a.drop_first()));
        assert((b[0].0 + b[0].1) + spec_pairs_bytes(b.drop_first()) =~= b[0].0 + b[0].1
            + spec_pairs_bytes(b.drop_first()));
        lemma_concat_cancel(
            a[0].0 + a[0].1,
            spec_pairs_bytes(a.drop_first()),
            b[0].0 + b[0].1,
            spec_pairs_bytes(b.drop_first()),
        );
        lemma_concat_cancel(a[0].0, a[0].1, b[0].0, b[0].1);
        assert(a[0] == b[0]);
        lemma_pairs_bytes_injective(a.drop_first(), b.drop_first());
        assert forall|i: int| 0 <= i < a.len() implies a[i] == b[i] by {
            if i > 0 {
                assert(a.drop_first()[i - 1] == b.drop_first()[i - 1]);
            }
        }
        assert(a =~= b);
    }
}

/// The little-endian encoding of a 64-bit value is injective.
proof fn lemma_le64_injective(x: u64, y: u64)
    requires
        spec_le64(x) == spec_le64(y),
    ensures
        x == y,
{
    assert((x & 0xff) as u8 == (y & 0xff) as u8) by {
        assert(spec_le64(x)[0] == spec_le64(y)[0]);
    }
    assert(((x >> 8) & 0xff) as u8 == ((y >> 8) & 0xff) as u8) by {
        assert(spec_le64(x)[1] == spec_le64(y)[1]);
    }
    assert(((x >> 16) & 0xff) as u8 == ((y >> 16) & 0xff) as u8) by {
        assert(spec_le64(x)[2] == spec_le64(y)[2]);
    }
    assert(((x >> 24) & 0xff) as u8 == ((y >> 24) & 0xff) as u8) by {
        assert(spec_le64(x)[3] == spec_le64(y)[3]);
    }
    assert(((x >> 32) & 0xff) as u8 == ((y >> 32) & 0xff) as u8) by {
        assert(spec_le64(x)[4] == spec_le64(y)[4]);
    }
    assert(((x >> 40) & 0xff) as u8 == ((y >> 40) & 0xff) as u8) by {
        assert(spec_le64(x)[5] == spec_le64(y)[5]);
    }
    assert(((x >> 48) & 0xff) as u8 == ((y >> 48) & 0xff) as u8) by {
        assert(spec_le64(x)[6] == spec_le64(y)[6]);
    }
    assert(((x >> 56) & 0xff) as u8 == ((y >> 56) & 0xff) as u8) by {
        assert(spec_le64(x)[7] == spec_le64(y)[7]);
    }
    assert(x == y) by (bit_vector)
        requires
            (x & 0xff) as u8 == (y & 0xff) as u8,
            ((x >> 8) & 0xff) as u8 == ((y >> 8) & 0xff) as u8,
            ((x >> 16) & 0xff) as u8 == ((y >> 16) & 0xff) as u8,
            ((x >> 24) & 0xff) as u8 == ((y >> 24) & 0xff) as u8,
            ((x >> 32) & 0xff) as u8 == ((y >> 32) & 0xff) as u8,
            ((x >> 40) & 0xff) as u8 == ((y >> 40) & 0xff) as u8,
            ((x >> 48) & 0xff) as u8 == ((y >> 48) & 0xff) as u8,
            ((x >> 56) & 0xff) as u8 == ((y >> 56) & 0xff) as u8,
    ;
}

/// Sighash determinism: the byte string the bundle sighash commits to
/// determines, and is determined by, exactly the ordered `(cv, rk)`
/// sequence and the value balance — never the signatures or the stamp.
/// Two bundles feed the digest the same input only when their effecting
/// data and balance agree; distinctness of the digests themselves then
/// rests on the hash.
pub proof fn lemma_sighash_input_injective(
    a: Seq<(Seq<u8>, Seq<u8>)>,
    va: i64,
    b: Seq<(Seq<u8>, Seq<u8>)>,
    vb: i64,
)
    requires
        forall|i: int|
            0 <= i < a.len() ==> (#[trigger] a[i]).0.len() == 32 && a[i].1.len() == 32,
        forall|i: int|
            0 <= i < b.len() ==> (#[trigger] b[i]).0.len() == 32 && b[i].1.len() == 32,
        spec_sighash_input(a, va) == spec_sighash_input(b, vb),
    ensures
        a == b,
        va == vb,
{
    lemma_pairs_bytes_len(a);
    lemma_pairs_bytes_len(b);
    assert(spec_le64(va as u64).len() == 8);
    assert(spec_le64(vb as u64).len() == 8);
    assert(spec_sighash_input(a, va).len() == 64 * a.len() + 8);
    assert(spec_sighash_input(b, vb).len() == 64 * b.len() + 8);
    assert(64 * a.len() + 8 == 64 * b.len() + 8);
    assert(a.len() == b.len()) by (nonlinear_arith)
        requires
            64 * a.len() + 8 == 64 * b.len() + 8,
    ;
    lemma_concat_cancel(
        spec_pairs_bytes(a),
        spec_le64(va as u64),
        spec_pairs_bytes(b),
        spec_le64(vb as u64),
    );
    lemma_pairs_bytes_injective(a, b);
    lemma_le64_injective(va as u64, vb as u64);
    assert(va == vb) by (bit_vector)
        requires
            va as u64 == vb as u64,
    ;
}

/// Stripping preserves verification: whether a bundle's signatures
/// verify depends only on its actions, balance and binding signature,
/// all of which stripping leaves untouched — never on the stamp slot.
pub proof fn lemma_strip_preserves_signatures(stamped: Stamped<i64>, stripped: Stripped<i64>)
    requires
        stripped.actions == stamped.actions,
        stripped.value_balance == stamped.value_balance,
        stripped.binding_sig == stamped.binding_sig,
    ensures
        spec_signatures_valid(stripped.actions@, stripped.value_balance, stripped.binding_sig@)
            == spec_signatures_valid(stamped.actions@, stamped.value_balance,
            stamped.binding_sig@),
{
}

} // verus!
