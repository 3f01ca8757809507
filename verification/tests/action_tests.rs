//! Per-action authorization round trips.

use rand::rngs::StdRng;
use rand::SeedableRng;

use tachyon::action;
use tachyon::bundle;
use tachyon::custody::{Custody, Local};
use tachyon::keys::{ActionSigningKey, ActionEntropy, SpendingKey};
use tachyon::note::{CommitmentTrapdoor, Note, NullifierTrapdoor, Value};
use tachyon::value;

fn zero32() -> [u8; 32] {
    [0u8; 32]
}

fn test_note(sk: &SpendingKey, v: u64) -> Note {
    Note {
        pk: sk.derive_payment_key(),
        value: Value::new(v).unwrap(),
        psi: NullifierTrapdoor::from_bytes(zero32()).unwrap(),
        rcm: CommitmentTrapdoor::from_bytes(zero32()).unwrap(),
    }
}

/// A spend action's signature must verify against the bundle-wide
/// sighash using its own rk.
#[test]
fn spend_sig_round_trip() {
    let mut rng = StdRng::seed_from_u64(0);
    let sk = SpendingKey::from_bytes([0x42u8; 32]);
    let pak = sk.derive_proof_private().unwrap();
    let note = test_note(&sk, 1000);
    let theta = ActionEntropy::random(&mut rng);

    // Phase 1: assemble the plan.
    let spend = action::Plan::spend(note, theta, pak.ak());
    let plan = bundle::Plan::new(vec![spend], 1000);

    // Phase 2: authorize via custody, then check the signature.
    let local = Local::new(sk.derive_auth_private().unwrap());
    let auth = local.authorize(&plan, &mut rng).unwrap();
    let sighash = plan.sighash(&auth.commitments);

    plan.actions[0].rk.verify(&sighash, &auth.sigs[0]).unwrap();
}

/// An output action's signature must verify against the bundle-wide
/// sighash using its own rk.
#[test]
fn output_sig_round_trip() {
    let mut rng = StdRng::seed_from_u64(0);
    let sk = SpendingKey::from_bytes([0x42u8; 32]);
    let note = test_note(&sk, 1000);
    let theta = ActionEntropy::random(&mut rng);

    // Phase 1: assemble the unsigned effecting data.
    let cm = note.commitment();
    let rcv = value::CommitmentTrapdoor::random(&mut rng);
    let cv = rcv.commit(-1000);
    let alpha = theta.output_randomizer(&cm);
    let rk = alpha.derive_rk();

    // Phase 2: compute the sighash and sign with rsk = alpha.
    let pairs = vec![(cv, rk)];
    let sighash = bundle::sighash(&pairs, -1000);
    let rsk = ActionSigningKey::from_output_alpha(&alpha);
    let sig = rsk.sign(&sighash, &mut rng);

    rk.verify(&sighash, &sig).unwrap();
}

/// An output-derived alpha presented as if it had been derived with the
/// spend personalization yields a different key, and the signature fails
/// under it.
#[test]
fn output_alpha_fails_under_spend_personalization() {
    let mut rng = StdRng::seed_from_u64(0);
    let sk = SpendingKey::from_bytes([0x42u8; 32]);
    let note = test_note(&sk, 1000);
    let theta = ActionEntropy::from_bytes([0x09u8; 32]);
    let cm = note.commitment();

    let out_alpha = theta.output_randomizer(&cm);
    let rk = out_alpha.derive_rk();
    let rcv = value::CommitmentTrapdoor::random(&mut rng);
    let cv = rcv.commit(-1000);
    let pairs = vec![(cv, rk)];
    let sighash = bundle::sighash(&pairs, -1000);
    let sig = ActionSigningKey::from_output_alpha(&out_alpha).sign(&sighash, &mut rng);
    rk.verify(&sighash, &sig).unwrap();

    // Swap the personalization: the spend-derived alpha gives another
    // key, and verification under it must fail.
    let spend_alpha = theta.spend_randomizer(&cm);
    let swapped_key =
        reddsa::SigningKey::<reddsa::orchard::SpendAuth>::try_from(spend_alpha.to_bytes())
            .unwrap();
    let swapped_rk_bytes: [u8; 32] = reddsa::VerificationKey::from(&swapped_key).into();
    let swapped_rk =
        tachyon::keys::ActionVerificationKey::from_bytes(swapped_rk_bytes).unwrap();
    assert!(swapped_rk.verify(&sighash, &sig).is_err());
}
