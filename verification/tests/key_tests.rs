//! Key derivation: PRF expansion, sign normalization, child keys and
//! per-action randomizers.

use blake2b_simd::Params;
use ff::{FromUniformBytes, PrimeField};

use tachyon::keys::{prf_expand, ActionEntropy, SpendingKey};
use tachyon::note::{CommitmentTrapdoor, Note, NullifierTrapdoor, Value};

fn zero32() -> [u8; 32] {
    [0u8; 32]
}

fn test_note(sk: &SpendingKey, v: u64) -> Note {
    Note {
        pk: sk.derive_payment_key(),
        value: Value::new(v).unwrap(),
        psi: NullifierTrapdoor::from_bytes(zero32()).unwrap(),
        rcm: CommitmentTrapdoor::from_bytes(zero32()).unwrap(),
    }
}

/// Same key, different domain separators -> different outputs. This is
/// the property that makes child-key derivation safe.
#[test]
fn prf_expand_domain_separators_independent() {
    let sk = [0x42u8; 32];
    let ask = prf_expand(&sk, 0x09);
    let nk = prf_expand(&sk, 0x0a);
    let pk = prf_expand(&sk, 0x0b);
    assert_ne!(ask, nk);
    assert_ne!(ask, pk);
    assert_ne!(nk, pk);
}

/// The PRF expansion is BLAKE2b-512 of sk || t under "Zcash_ExpandSeed",
/// recomputed here directly.
#[test]
fn prf_expand_matches_blake2b() {
    let sk = [0x42u8; 32];
    let expanded = prf_expand(&sk, 0x09);
    let expected = *Params::new()
        .hash_length(64)
        .personal(b"Zcash_ExpandSeed")
        .to_state()
        .update(&sk)
        .update(&[0x09])
        .finalize()
        .as_array();
    assert_eq!(expanded, expected);
}

/// The child keys ask, nk, pk of one spending key have pairwise distinct
/// encodings.
#[test]
fn child_keys_pairwise_distinct() {
    let sk = SpendingKey::from_bytes([0x42u8; 32]);
    let ask = sk.derive_auth_private().unwrap();
    let ak: [u8; 32] = ask.derive_auth_public().to_bytes();
    let nk = sk.derive_nullifier_private().to_bytes();
    let pk = sk.derive_payment_key().to_bytes();
    assert_ne!(ak, nk);
    assert_ne!(ak, pk);
    assert_ne!(nk, pk);
}

/// Sign normalization: for every seed, the derived validating key's
/// encoding has y-sign bit 0, and across a sample of seeds both
/// normalization branches (flip needed, flip not needed) occur.
#[test]
fn sign_normalization_holds_and_covers_both_branches() {
    let mut flipped = 0u32;
    let mut unflipped = 0u32;
    for seed in 0u8..32 {
        let sk_bytes = [seed; 32];
        let sk = SpendingKey::from_bytes(sk_bytes);
        let ask = sk.derive_auth_private().unwrap();
        let ak = ask.derive_auth_public().to_bytes();
        assert_eq!(ak[31] >> 7, 0);

        // Recompute the unnormalized candidate directly to see which
        // branch was taken.
        let wide = prf_expand(&sk_bytes, 0x09);
        let candidate = pasta_curves::Fq::from_uniform_bytes(&wide);
        let raw_key =
            reddsa::SigningKey::<reddsa::orchard::SpendAuth>::try_from(candidate.to_repr())
                .unwrap();
        let raw_ak: [u8; 32] = reddsa::VerificationKey::from(&raw_key).into();
        if raw_ak[31] >> 7 == 1 {
            flipped += 1;
            assert_eq!(ask.derive_auth_public().to_bytes(), {
                let neg = -candidate;
                let neg_key =
                    reddsa::SigningKey::<reddsa::orchard::SpendAuth>::try_from(neg.to_repr())
                        .unwrap();
                <[u8; 32]>::from(reddsa::VerificationKey::from(&neg_key))
            });
        } else {
            unflipped += 1;
            assert_eq!(ak, raw_ak);
        }
    }
    assert!(flipped > 0);
    assert!(unflipped > 0);
}

/// Signer/prover rk consistency: the verification key of rsk = ask +
/// alpha equals the public-side randomization of ak by the same alpha,
/// for spends; for outputs both sides are [alpha]G.
#[test]
fn signer_and_prover_agree_on_rk() {
    let sk = SpendingKey::from_bytes([0x42u8; 32]);
    let ask = sk.derive_auth_private().unwrap();
    let ak = ask.derive_auth_public();
    let note = test_note(&sk, 1000);
    let cm = note.commitment();
    let theta = ActionEntropy::from_bytes([0x07u8; 32]);

    // Spend side.
    let alpha = theta.spend_randomizer(&cm);
    let signer_rk = ask.derive_action_private(&alpha).derive_action_public();
    let prover_rk = ak.derive_action_public(&alpha.to_witness());
    assert_eq!(signer_rk.to_bytes(), prover_rk.to_bytes());

    // Output side.
    let out_alpha = theta.output_randomizer(&cm);
    let direct_rk = out_alpha.derive_rk();
    let expected = {
        let key = reddsa::SigningKey::<reddsa::orchard::SpendAuth>::try_from(out_alpha.to_bytes())
            .unwrap();
        <[u8; 32]>::from(reddsa::VerificationKey::from(&key))
    };
    assert_eq!(direct_rk.to_bytes(), expected);
}

/// Alpha domain separation: for the same theta and note commitment, the
/// spend and output randomizers differ.
#[test]
fn spend_and_output_randomizers_differ() {
    let sk = SpendingKey::from_bytes([0x42u8; 32]);
    let note = test_note(&sk, 1000);
    let cm = note.commitment();
    let theta = ActionEntropy::from_bytes([0x01u8; 32]);
    let spend_alpha = theta.spend_randomizer(&cm).to_bytes();
    let output_alpha = theta.output_randomizer(&cm).to_bytes();
    assert_ne!(spend_alpha, output_alpha);
}

/// The spend randomizer is BLAKE2b-512 of theta || cm under
/// "Tachyon-Spend" reduced into the scalar field, recomputed directly.
#[test]
fn spend_randomizer_matches_derivation() {
    let sk = SpendingKey::from_bytes([0x42u8; 32]);
    let note = test_note(&sk, 1000);
    let cm = note.commitment();
    let theta = ActionEntropy::from_bytes([0x05u8; 32]);
    let alpha = theta.spend_randomizer(&cm).to_bytes();
    let digest = Params::new()
        .hash_length(64)
        .personal(b"Tachyon-Spend")
        .to_state()
        .update(&theta.to_bytes())
        .update(&cm.to_bytes())
        .finalize();
    let expected = pasta_curves::Fq::from_uniform_bytes(digest.as_array()).to_repr();
    assert_eq!(alpha, expected);
}

/// Theta unlinkability: actions built from identical inputs except theta
/// produce different rk values.
#[test]
fn different_theta_produces_different_rk() {
    let sk = SpendingKey::from_bytes([0x42u8; 32]);
    let pak = sk.derive_proof_private().unwrap();
    let note = test_note(&sk, 1000);
    let cm = note.commitment();

    let theta_a = ActionEntropy::from_bytes([0x01u8; 32]);
    let theta_b = ActionEntropy::from_bytes([0x02u8; 32]);

    let plan_a = tachyon::action::Plan::spend(note, theta_a, pak.ak());
    let plan_b = tachyon::action::Plan::spend(note, theta_b, pak.ak());

    // Control: the deterministic commitment is identical.
    assert_eq!(cm.to_bytes(), note.commitment().to_bytes());

    // Property: theta -> alpha -> rk, so different theta -> different rk.
    let rk_a: [u8; 32] = plan_a.rk.to_bytes();
    let rk_b: [u8; 32] = plan_b.rk.to_bytes();
    assert_ne!(rk_a, rk_b);
}

/// The nullifier pipeline is deterministic, flavor-dependent and
/// psi-dependent.
#[test]
fn nullifier_depends_on_flavor_and_psi() {
    let sk = SpendingKey::from_bytes([0x42u8; 32]);
    let nk = sk.derive_nullifier_private();
    let note = test_note(&sk, 1000);
    let mut one = [0u8; 32];
    one[0] = 1;
    let epoch0 = tachyon::Epoch::from_bytes(zero32()).unwrap();
    let epoch1 = tachyon::Epoch::from_bytes(one).unwrap();

    let nf_a = note.nullifier(&nk, epoch0);
    let nf_b = note.nullifier(&nk, epoch0);
    assert_eq!(nf_a.to_bytes(), nf_b.to_bytes());

    let nf_c = note.nullifier(&nk, epoch1);
    assert_ne!(nf_a.to_bytes(), nf_c.to_bytes());

    let other = Note {
        psi: NullifierTrapdoor::from_bytes(one).unwrap(),
        ..note
    };
    let nf_d = other.nullifier(&nk, epoch0);
    assert_ne!(nf_a.to_bytes(), nf_d.to_bytes());
}
