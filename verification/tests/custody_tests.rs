//! Software custody authorization.

use rand::rngs::StdRng;
use rand::SeedableRng;

use tachyon::action;
use tachyon::bundle;
use tachyon::custody::{Custody, Local};
use tachyon::keys::{ActionEntropy, SpendingKey};
use tachyon::note::{CommitmentTrapdoor, Note, NullifierTrapdoor, Value};

/// Software custody must produce signatures that verify against the
/// bundle-wide sighash.
#[test]
fn software_custody_sig_round_trip() {
    let mut rng = StdRng::seed_from_u64(0);
    let sk = SpendingKey::from_bytes([0x42u8; 32]);
    let pak = sk.derive_proof_private().unwrap();
    let custody = Local::new(sk.derive_auth_private().unwrap());

    let note = Note {
        pk: sk.derive_payment_key(),
        value: Value::new(1000u64).unwrap(),
        psi: NullifierTrapdoor::from_bytes([0u8; 32]).unwrap(),
        rcm: CommitmentTrapdoor::from_bytes([0u8; 32]).unwrap(),
    };
    let note_value: i64 = 1000;
    let theta = ActionEntropy::random(&mut rng);

    // The user device derives rk from the public key.
    let spend = action::Plan::spend(note, theta, pak.ak());
    let rk = spend.rk;
    let plan = bundle::Plan::new(vec![spend], note_value);

    let auth = custody.authorize(&plan, &mut rng).unwrap();
    let sighash = plan.sighash(&auth.commitments);

    rk.verify(&sighash, &auth.sigs[0]).unwrap();
}
