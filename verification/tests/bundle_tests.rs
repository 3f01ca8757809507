//! Bundle construction, verification, stripping and the composable flow.

use rand::rngs::StdRng;
use rand::SeedableRng;

use tachyon::action;
use tachyon::bundle::{self, Bundle, Plan, Stamped};
use tachyon::custody::{Custody, Local};
use tachyon::keys::{
    ActionEntropy, ActionSigningKey, BindingSigningKey, BindingVerificationKey, SpendingKey,
};
use tachyon::note::{CommitmentTrapdoor, Note, NullifierTrapdoor, Value};
use tachyon::stamp::Stamp;
use tachyon::value;
use tachyon::witness::{ActionPrivate, MergePrivate};
use tachyon::{Anchor, Epoch};

fn zero32() -> [u8; 32] {
    [0u8; 32]
}

fn one32() -> [u8; 32] {
    let mut b = [0u8; 32];
    b[0] = 1;
    b
}

fn spend_note(sk: &SpendingKey) -> Note {
    Note {
        pk: sk.derive_payment_key(),
        value: Value::new(1000u64).unwrap(),
        psi: NullifierTrapdoor::from_bytes(zero32()).unwrap(),
        rcm: CommitmentTrapdoor::from_bytes(zero32()).unwrap(),
    }
}

fn output_note(sk: &SpendingKey) -> Note {
    Note {
        pk: sk.derive_payment_key(),
        value: Value::new(700u64).unwrap(),
        psi: NullifierTrapdoor::from_bytes(one32()).unwrap(),
        rcm: CommitmentTrapdoor::from_bytes(one32()).unwrap(),
    }
}

/// Build a test bundle using `bundle::Plan` + custody for authorization.
fn build_test_bundle(rng: &mut StdRng) -> Stamped<i64> {
    let sk = SpendingKey::from_bytes([0x42u8; 32]);
    let pak = sk.derive_proof_private().unwrap();
    let anchor = Anchor::from_bytes(zero32()).unwrap();

    let theta_spend = ActionEntropy::random(rng);
    let theta_output = ActionEntropy::random(rng);

    let spend = action::Plan::spend(spend_note(&sk), theta_spend, pak.ak());
    let output = action::Plan::output(output_note(&sk), theta_output);

    let plan = Plan::new(vec![spend, output], 300);
    let local = Local::new(sk.derive_auth_private().unwrap());
    let auth = local.authorize(&plan, rng).unwrap();

    plan.build(auth, anchor, &pak, rng).unwrap()
}

/// A correctly built bundle must pass signature verification.
#[test]
fn build_and_verify_round_trip() {
    let mut rng = StdRng::seed_from_u64(0);
    let bundle = build_test_bundle(&mut rng);
    bundle.verify_signatures().unwrap();
}

/// A wrong value_balance makes binding signature verification fail.
#[test]
fn wrong_value_balance_fails_verification() {
    let mut rng = StdRng::seed_from_u64(0);
    let mut bundle = build_test_bundle(&mut rng);

    bundle.value_balance = 999;
    assert!(bundle.verify_signatures().is_err());
}

/// Stripping preserves the binding signature and action signatures.
#[test]
fn stripped_bundle_retains_signatures() {
    let mut rng = StdRng::seed_from_u64(0);
    let bundle = build_test_bundle(&mut rng);

    let (stripped, _stamp) = bundle.strip();
    stripped.verify_signatures().unwrap();
}

/// A single-output mint with balance -1000 builds and verifies.
#[test]
fn mint_and_verify() {
    let mut rng = StdRng::seed_from_u64(0);
    let sk = SpendingKey::from_bytes([0x42u8; 32]);
    let pak = sk.derive_proof_private().unwrap();
    let anchor = Anchor::from_bytes(zero32()).unwrap();

    let note = spend_note(&sk);
    let theta = ActionEntropy::random(&mut rng);
    let output = action::Plan::output(note, theta);
    let plan = Plan::new(vec![output], -1000);

    let local = Local::new(sk.derive_auth_private().unwrap());
    let auth = local.authorize(&plan, &mut rng).unwrap();
    let bundle = plan.build(auth, anchor, &pak, &mut rng).unwrap();
    bundle.verify_signatures().unwrap();
}

/// Composable flow: construct actions and the bundle step by step,
/// exercising each delegation boundary independently, with no
/// convenience wrappers.
#[test]
fn composable_delegation_flow() {
    let mut rng = StdRng::seed_from_u64(1);
    let sk = SpendingKey::from_bytes([0x42u8; 32]);
    let ask = sk.derive_auth_private().unwrap();
    let pak = sk.derive_proof_private().unwrap();
    let anchor = Anchor::from_bytes(zero32()).unwrap();
    let flavor = Epoch::from_anchor(&anchor);
    let value_balance: i64 = 300;

    let s_note = spend_note(&sk);
    let o_note = output_note(&sk);

    // Phase 1: assemble all action plans.
    let spend_cm = s_note.commitment();
    let spend_rcv = value::CommitmentTrapdoor::random(&mut rng);
    let spend_cv = spend_rcv.commit(1000);
    let spend_theta = ActionEntropy::random(&mut rng);
    let spend_alpha = spend_theta.spend_randomizer(&spend_cm);
    let spend_rk = pak.ak().derive_action_public(&spend_alpha.to_witness());

    let output_cm = o_note.commitment();
    let output_rcv = value::CommitmentTrapdoor::random(&mut rng);
    let output_cv = output_rcv.commit(-700);
    let output_theta = ActionEntropy::random(&mut rng);
    let output_alpha = output_theta.output_randomizer(&output_cm);
    let output_rsk = ActionSigningKey::from_output_alpha(&output_alpha);
    let output_rk = output_rsk.derive_action_public();

    // Phase 2: one sighash over all effecting data, then sign.
    let pairs = vec![(spend_cv, spend_rk), (output_cv, output_rk)];
    let sh = bundle::sighash(&pairs, value_balance);

    let spend_rsk = ask.derive_action_private(&spend_alpha);
    let spend_sig = spend_rsk.sign(&sh, &mut rng);
    let spend_action = action::Action { cv: spend_cv, rk: spend_rk, sig: spend_sig };

    let output_sig = output_rsk.sign(&sh, &mut rng);
    let output_action = action::Action { cv: output_cv, rk: output_rk, sig: output_sig };

    let actions = vec![spend_action, output_action];

    // Witnesses for stamp construction.
    let spend_witness = ActionPrivate {
        alpha: spend_alpha.to_witness(),
        flavor,
        note: s_note,
        rcv: spend_rcv,
        tachygram: s_note.nullifier(pak.nk(), flavor).to_tachygram(),
    };
    let output_witness = ActionPrivate {
        alpha: output_alpha.to_witness(),
        flavor,
        note: o_note,
        rcv: output_rcv,
        tachygram: output_cm.to_tachygram(),
    };

    // Binding key: accumulate the trapdoors, fault-check against the
    // validator-side derivation.
    let bsk = BindingSigningKey::sum(&vec![spend_witness.rcv, output_witness.rcv]);
    assert!(bsk.derive_binding_public() == BindingVerificationKey::derive(&actions, value_balance));

    // Stamp: per-action proofs, then a same-epoch merge; verify before
    // the binding signature is emitted.
    let spend_stamp = Stamp::prove(&vec![spend_witness], &vec![spend_action], anchor, &pak);
    let output_stamp = Stamp::prove(&vec![output_witness], &vec![output_action], anchor, &pak);
    let stamp = spend_stamp.merge(output_stamp, &MergePrivate::same_epoch());
    bundle::verify_stamp(&stamp, &actions).unwrap();

    let binding_sig = bsk.sign(&sh, &mut rng);

    let bundle: Stamped<i64> = Bundle { actions, value_balance, binding_sig, stamp };
    bundle.verify_signatures().unwrap();
}

/// The composable flow reproduces the planned flow byte for byte when
/// both consume the same deterministic generator in the same order.
#[test]
fn composable_matches_planned() {
    let planned = build_test_bundle(&mut StdRng::seed_from_u64(3));

    let mut rng = StdRng::seed_from_u64(3);
    let sk = SpendingKey::from_bytes([0x42u8; 32]);
    let ask = sk.derive_auth_private().unwrap();
    let pak = sk.derive_proof_private().unwrap();
    let anchor = Anchor::from_bytes(zero32()).unwrap();
    let flavor = Epoch::from_anchor(&anchor);
    let value_balance: i64 = 300;

    let s_note = spend_note(&sk);
    let o_note = output_note(&sk);

    // Identical draw order: thetas, trapdoors, spend signature, output
    // signature, binding signature.
    let spend_theta = ActionEntropy::random(&mut rng);
    let output_theta = ActionEntropy::random(&mut rng);

    let spend_cm = s_note.commitment();
    let output_cm = o_note.commitment();
    let spend_alpha = spend_theta.spend_randomizer(&spend_cm);
    let output_alpha = output_theta.output_randomizer(&output_cm);
    let spend_rk = pak.ak().derive_action_public(&spend_alpha.to_witness());
    let output_rk = output_alpha.derive_rk();

    let spend_rcv = value::CommitmentTrapdoor::random(&mut rng);
    let spend_cv = spend_rcv.commit(1000);
    let output_rcv = value::CommitmentTrapdoor::random(&mut rng);
    let output_cv = output_rcv.commit(-700);

    let pairs = vec![(spend_cv, spend_rk), (output_cv, output_rk)];
    let sh = bundle::sighash(&pairs, value_balance);

    let spend_sig = ask.derive_action_private(&spend_alpha).sign(&sh, &mut rng);
    let output_sig = ActionSigningKey::from_output_alpha(&output_alpha).sign(&sh, &mut rng);

    let actions = vec![
        action::Action { cv: spend_cv, rk: spend_rk, sig: spend_sig },
        action::Action { cv: output_cv, rk: output_rk, sig: output_sig },
    ];

    let bsk = BindingSigningKey::sum(&vec![spend_rcv, output_rcv]);
    assert!(bsk.derive_binding_public() == BindingVerificationKey::derive(&actions, value_balance));
    let binding_sig = bsk.sign(&sh, &mut rng);

    // Byte-identical to the planned bundle.
    assert_eq!(planned.actions.len(), actions.len());
    for (a, b) in planned.actions.iter().zip(actions.iter()) {
        assert_eq!(a.cv.to_bytes(), b.cv.to_bytes());
        assert_eq!(a.rk.to_bytes(), b.rk.to_bytes());
        assert_eq!(a.sig.to_bytes(), b.sig.to_bytes());
    }
    assert_eq!(planned.value_balance, value_balance);
    assert_eq!(planned.binding_sig.to_bytes(), binding_sig.to_bytes());
    assert_eq!(planned.stamp.tachygrams.len(), 2);
    assert_eq!(
        planned.stamp.tachygrams[0].to_bytes(),
        s_note.nullifier(pak.nk(), flavor).to_bytes()
    );
    assert_eq!(planned.stamp.tachygrams[1].to_bytes(), output_cm.to_bytes());
}

/// The one-step pipeline (authorize with software custody, then build)
/// produces the same bundle as the staged calls on the same generator,
/// and it verifies.
#[test]
fn one_step_pipeline_matches_staged() {
    let staged = build_test_bundle(&mut StdRng::seed_from_u64(2));

    let mut rng = StdRng::seed_from_u64(2);
    let sk = SpendingKey::from_bytes([0x42u8; 32]);
    let pak = sk.derive_proof_private().unwrap();
    let anchor = Anchor::from_bytes(zero32()).unwrap();

    let theta_spend = ActionEntropy::random(&mut rng);
    let theta_output = ActionEntropy::random(&mut rng);
    let spend = action::Plan::spend(spend_note(&sk), theta_spend, pak.ak());
    let output = action::Plan::output(output_note(&sk), theta_output);
    let plan = Plan::new(vec![spend, output], 300);

    let local = Local::new(sk.derive_auth_private().unwrap());
    let bundle = plan.authorize_and_build(&local, anchor, &pak, &mut rng).unwrap();
    bundle.verify_signatures().unwrap();

    assert_eq!(bundle.binding_sig.to_bytes(), staged.binding_sig.to_bytes());
    for (a, b) in bundle.actions.iter().zip(staged.actions.iter()) {
        assert_eq!(a.cv.to_bytes(), b.cv.to_bytes());
        assert_eq!(a.rk.to_bytes(), b.rk.to_bytes());
        assert_eq!(a.sig.to_bytes(), b.sig.to_bytes());
    }
}

/// The sighash depends on exactly the ordered effecting data and the
/// balance: recomputation agrees, and changing the balance or the order
/// changes the digest.
#[test]
fn sighash_is_determined_by_effecting_data() {
    let mut rng = StdRng::seed_from_u64(5);
    let bundle = build_test_bundle(&mut rng);

    let h1 = bundle.sighash().to_bytes();
    let h2 = bundle.sighash().to_bytes();
    assert_eq!(h1, h2);

    let mut rebalanced = bundle.clone();
    rebalanced.value_balance = 299;
    assert_ne!(h1, rebalanced.sighash().to_bytes());

    let mut reordered = bundle.clone();
    reordered.actions.swap(0, 1);
    assert_ne!(h1, reordered.sighash().to_bytes());
}

/// Building a plan whose declared balance does not match the action
/// values trips the internal fault check: the signer-side binding key
/// cannot match the validator-side derivation, so construction fails
/// before any binding signature exists.
#[test]
fn unbalanced_plan_fails_fault_check() {
    let mut rng = StdRng::seed_from_u64(4);
    let sk = SpendingKey::from_bytes([0x42u8; 32]);
    let pak = sk.derive_proof_private().unwrap();
    let anchor = Anchor::from_bytes(zero32()).unwrap();

    let theta_spend = ActionEntropy::random(&mut rng);
    let theta_output = ActionEntropy::random(&mut rng);
    let spend = action::Plan::spend(spend_note(&sk), theta_spend, pak.ak());
    let output = action::Plan::output(output_note(&sk), theta_output);

    // The true balance is 300.
    let plan = Plan::new(vec![spend, output], 299);
    let local = Local::new(sk.derive_auth_private().unwrap());
    let auth = local.authorize(&plan, &mut rng).unwrap();
    let r = plan.build(auth, anchor, &pak, &mut rng);
    assert!(matches!(r.unwrap_err(), bundle::BuildError::BalanceKey));
}

/// A degenerate binding signing key — the zero scalar — is rejected with
/// the balance-key error before anything is signed.
#[test]
fn zero_trapdoor_sum_yields_balance_key_error() {
    let mut rng = StdRng::seed_from_u64(0);
    let sk = SpendingKey::from_bytes([0x42u8; 32]);
    let pak = sk.derive_proof_private().unwrap();
    let anchor = Anchor::from_bytes(zero32()).unwrap();
    let flavor = Epoch::from_anchor(&anchor);

    let note = spend_note(&sk);
    let theta = ActionEntropy::random(&mut rng);
    let cm = note.commitment();
    let alpha = theta.spend_randomizer(&cm);
    let rk = pak.ak().derive_action_public(&alpha.to_witness());

    // A zero trapdoor makes bsk the zero scalar.
    let rcv = value::CommitmentTrapdoor::from_bytes(zero32()).unwrap();
    let cv = rcv.commit(1000);
    let act = action::Action {
        cv,
        rk,
        sig: action::Signature::from_bytes([0u8; 64]),
    };
    let witness = ActionPrivate {
        alpha: alpha.to_witness(),
        flavor,
        note,
        rcv,
        tachygram: note.nullifier(pak.nk(), flavor).to_tachygram(),
    };

    let r = Bundle::build(vec![(act, witness)], 1000, anchor, &pak, &mut rng);
    assert!(matches!(r.unwrap_err(), bundle::BuildError::BalanceKey));
}

/// Merging stamps concatenates the tachygram lists and keeps the later
/// anchor.
#[test]
fn stamp_merge_concatenates_and_keeps_later_anchor() {
    let mut rng = StdRng::seed_from_u64(0);
    let early = build_test_bundle(&mut rng).strip().1;

    // A second bundle at a later anchor.
    let sk = SpendingKey::from_bytes([0x43u8; 32]);
    let pak = sk.derive_proof_private().unwrap();
    let later_anchor = Anchor::from_bytes(one32()).unwrap();
    let theta = ActionEntropy::random(&mut rng);
    let output = action::Plan::output(output_note(&sk), theta);
    let plan = Plan::new(vec![output], -700);
    let local = Local::new(sk.derive_auth_private().unwrap());
    let auth = local.authorize(&plan, &mut rng).unwrap();
    let late = plan.build(auth, later_anchor, &pak, &mut rng).unwrap().strip().1;

    let expected: Vec<[u8; 32]> = early
        .tachygrams
        .iter()
        .chain(late.tachygrams.iter())
        .map(|t| t.to_bytes())
        .collect();
    let merged = early.merge(late, &MergePrivate::same_epoch());
    let merged_bytes: Vec<[u8; 32]> = merged.tachygrams.iter().map(|t| t.to_bytes()).collect();
    assert_eq!(merged_bytes, expected);
    assert_eq!(merged.anchor.to_bytes(), one32());
}
