//! Private (signing) keys.

use vstd::prelude::*;

use crate::bundle;
use crate::constants::{
    PRF_DOMAIN_ASK, PRF_DOMAIN_NK, PRF_DOMAIN_PK, PRF_EXPAND_PERSONALIZATION,
};
use crate::encoding::extend_bytes;
use crate::error::DerivationError;
use crate::keys::note::{NullifierKey, PaymentKey};
use crate::keys::proving::{ProofAuthorizingKey, SpendValidatingKey};
use crate::keys::public::BindingVerificationKey;
use crate::keys::randomizer::{OutputRandomizer, SpendRandomizer};
use crate::primitives::{
    binding_public, binding_sign, blake2b512, fp_from_wide, fq_add, fq_from_wide, fq_neg,
    spendauth_public, spendauth_randomize_sk, spendauth_sign, spec_binding_public,
    spec_binding_verify, spec_blake2b512, spec_fp_from_wide, spec_fq_add, spec_fq_canonical,
    spec_fq_from_wide, spec_fq_neg, spec_spendauth_public, spec_spendauth_randomize_pk,
    spec_spendauth_randomize_sk, spec_spendauth_verify,
};
use crate::{action, value};

verus! {

/// `PRF^expand_sk(t)`: BLAKE2b-512 of `sk || [t]` under the expand-seed
/// personalization, 64 bytes fit for unbiased field reduction.
pub open spec fn spec_prf_expand(sk: Seq<u8>, t: u8) -> Seq<u8> {
    spec_blake2b512(PRF_EXPAND_PERSONALIZATION@, sk + seq![t])
}

/// The y-sign bit of a 32-byte compressed point encoding: bit 7 of byte
/// 31.
pub open spec fn spec_sign_bit(b: Seq<u8>) -> bool {
    b[31] >> 7 == 1
}

/// The scalar that `PRF^expand_sk(ask-domain)` reduces to, before sign
/// normalization.
pub open spec fn spec_ask_candidate(sk: Seq<u8>) -> Seq<u8> {
    spec_fq_from_wide(spec_prf_expand(sk, PRF_DOMAIN_ASK))
}

/// The sign-normalized spend authorizing key of `sk`: the candidate, or
/// its negation when the candidate's public key has y-sign bit 1.
pub open spec fn spec_ask(sk: Seq<u8>) -> Seq<u8> {
    if spec_sign_bit(spec_spendauth_public(spec_ask_candidate(sk))) {
        spec_fq_neg(spec_ask_candidate(sk))
    } else {
        spec_ask_candidate(sk)
    }
}

/// Domain-separated key expansion: `BLAKE2b-512("Zcash_ExpandSeed", sk ||
/// [t])`, the 64-byte block each child key is reduced from.
pub fn prf_expand(sk: &[u8; 32], t: u8) -> (r: [u8; 64])
    ensures
        r@ == spec_prf_expand(sk@, t),
{
    let mut data: Vec<u8> = Vec::new();
    extend_bytes(&mut data, sk.as_slice());
    data.push(t);
    proof {
        assert(data@ =~= sk@ + seq![t]);
    }
    blake2b512(PRF_EXPAND_PERSONALIZATION.as_slice(), &data)
}

/// A Tachyon spending key: raw 32-byte entropy, the root of the key
/// hierarchy. The full 256-bit key space is preserved; the key is never a
/// field element.
#[derive(Clone, Copy, Debug)]
pub struct SpendingKey {
    bytes: [u8; 32],
}

impl View for SpendingKey {
    type V = Seq<u8>;

    closed spec fn view(&self) -> Seq<u8> {
        self.bytes@
    }
}

impl SpendingKey {
    /// Adopt 32 raw bytes as a spending key.
    pub fn from_bytes(bytes: [u8; 32]) -> (r: SpendingKey)
        ensures
            r@ == bytes@,
    {
        SpendingKey { bytes }
    }

    /// Derive `ask` with RedPallas sign normalization: reduce
    /// `PRF^expand_sk(0x09)` into the scalar field, compute `ak = [ask]G`,
    /// and negate `ask` if `ak`'s compressed encoding has its y-sign bit
    /// set, so that the final `ak` encodes with y-sign bit 0.
    ///
    /// Fails only if the encoding's sign bit is still set after the
    /// negation, which the curve arithmetic does not produce.
    pub fn derive_auth_private(&self) -> (r: Result<SpendAuthorizingKey, DerivationError>)
        ensures
            r is Ok <==> !spec_sign_bit(spec_spendauth_public(spec_ask(self@))),
            r matches Ok(k) ==> k@ == spec_ask(self@),
    {
        let wide = prf_expand(&self.bytes, PRF_DOMAIN_ASK);
        let candidate = fq_from_wide(&wide);
        let ak = spendauth_public(&candidate);
        if ak[31] >> 7 == 1 {
            let normalized = fq_neg(&candidate);
            let ak2 = spendauth_public(&normalized);
            if ak2[31] >> 7 == 1 {
                Err(DerivationError)
            } else {
                Ok(SpendAuthorizingKey { bytes: normalized })
            }
        } else {
            Ok(SpendAuthorizingKey { bytes: candidate })
        }
    }

    /// Derive the nullifier key `nk`: `PRF^expand_sk(0x0a)` reduced into
    /// the base field.
    pub fn derive_nullifier_private(&self) -> (r: NullifierKey)
        ensures
            r@ == spec_fp_from_wide(spec_prf_expand(self@, PRF_DOMAIN_NK)),
    {
        let wide = prf_expand(&self.bytes, PRF_DOMAIN_NK);
        NullifierKey::from_array(fp_from_wide(&wide))
    }

    /// Derive the payment key `pk`: `PRF^expand_sk(0x0b)` reduced into the
    /// base field. Deterministic per spending key — every note from the
    /// same wallet shares it.
    pub fn derive_payment_key(&self) -> (r: PaymentKey)
        ensures
            r@ == spec_fp_from_wide(spec_prf_expand(self@, PRF_DOMAIN_PK)),
    {
        let wide = prf_expand(&self.bytes, PRF_DOMAIN_PK);
        PaymentKey::from_array(fp_from_wide(&wide))
    }

    /// Derive the proof authorizing key `pak = (ak, nk)`, which authorizes
    /// proof construction without spend authority.
    pub fn derive_proof_private(&self) -> (r: Result<ProofAuthorizingKey, DerivationError>)
        ensures
            r is Ok <==> !spec_sign_bit(spec_spendauth_public(spec_ask(self@))),
            r matches Ok(p) ==> ({
                &&& p.spec_ak() == spec_spendauth_public(spec_ask(self@))
                &&& p.spec_nk() == spec_fp_from_wide(spec_prf_expand(self@, PRF_DOMAIN_NK))
            }),
    {
        let ask = match self.derive_auth_private() {
            Ok(ask) => ask,
            Err(e) => {
                return Err(e);
            },
        };
        let ak = ask.derive_auth_public();
        let nk = self.derive_nullifier_private();
        Ok(ProofAuthorizingKey::assemble(ak, nk))
    }
}

/// The spend authorizing key `ask` — long-lived, derived from the
/// spending key, sign-normalized.
///
/// It cannot sign directly: it must first be randomized into a per-action
/// [`ActionSigningKey`], which keeps the long-lived key away from any
/// signature and makes actions unlinkable.
#[derive(Clone, Copy, Debug)]
pub struct SpendAuthorizingKey {
    bytes: [u8; 32],
}

impl View for SpendAuthorizingKey {
    type V = Seq<u8>;

    closed spec fn view(&self) -> Seq<u8> {
        self.bytes@
    }
}

impl SpendAuthorizingKey {
    #[verifier::type_invariant]
    pub(crate) open spec fn canonical(self) -> bool {
        spec_fq_canonical(self@)
    }

    /// Derive the spend validating key `ak = [ask]G`.
    pub fn derive_auth_public(&self) -> (r: SpendValidatingKey)
        ensures
            r@ == spec_spendauth_public(self@),
    {
        proof {
            use_type_invariant(self);
        }
        SpendValidatingKey::from_array(spendauth_public(&self.bytes))
    }

    /// Derive the per-action signing key `rsk = ask + alpha`.
    ///
    /// The verification key of the result equals the public-side
    /// randomization of `ak` by the same alpha, so signer and prover
    /// agree on `rk`.
    pub fn derive_action_private(&self, alpha: &SpendRandomizer) -> (r: ActionSigningKey)
        ensures
            r@ == spec_spendauth_randomize_sk(self@, alpha@),
            spec_spendauth_public(r@) == spec_spendauth_randomize_pk(
                spec_spendauth_public(self@),
                alpha@,
            ),
    {
        proof {
            use_type_invariant(self);
            use_type_invariant(alpha);
        }
        let alpha_bytes = alpha.to_bytes();
        ActionSigningKey { bytes: spendauth_randomize_sk(&self.bytes, &alpha_bytes) }
    }
}

/// The per-action signing key `rsk` — ephemeral, the only key that can
/// sign an action.
///
/// For spends `rsk = ask + alpha`; for outputs `rsk = alpha` (no spend
/// authority involved).
#[derive(Clone, Copy, Debug)]
pub struct ActionSigningKey {
    bytes: [u8; 32],
}

impl View for ActionSigningKey {
    type V = Seq<u8>;

    closed spec fn view(&self) -> Seq<u8> {
        self.bytes@
    }
}

impl ActionSigningKey {
    #[verifier::type_invariant]
    pub(crate) open spec fn canonical(self) -> bool {
        spec_fq_canonical(self@)
    }

    /// The output-side signing key `rsk = alpha`, giving `rk = [alpha]G`.
    pub fn from_output_alpha(alpha: &OutputRandomizer) -> (r: ActionSigningKey)
        ensures
            r@ == alpha@,
    {
        proof {
            use_type_invariant(alpha);
        }
        ActionSigningKey { bytes: alpha.to_bytes() }
    }

    /// Sign the bundle sighash; the signature verifies under this key's
    /// verification key `rk = [rsk]G`.
    pub fn sign(
        &self,
        sighash: &bundle::SigHash,
        rng: &mut rand::rngs::StdRng,
    ) -> (r: action::Signature)
        ensures
            spec_spendauth_verify(spec_spendauth_public(self@), sighash@, r@),
    {
        proof {
            use_type_invariant(self);
        }
        let msg = sighash.to_bytes();
        action::Signature::from_array(spendauth_sign(&self.bytes, &msg, rng))
    }

    /// Derive the per-action verification key `rk = [rsk]G`.
    pub fn derive_action_public(&self) -> (r: crate::keys::public::ActionVerificationKey)
        ensures
            r@ == spec_spendauth_public(self@),
    {
        proof {
            use_type_invariant(self);
        }
        crate::keys::public::ActionVerificationKey::from_array(spendauth_public(&self.bytes))
    }
}

/// The binding signing key `bsk`: the scalar sum of a bundle's value
/// commitment trapdoors.
///
/// When the bundle balances, `bvk = (sum of cv) - [v_balance]V` equals
/// `[bsk]R`, so a signature under `bsk` proves the commitment opens to
/// value zero and therefore that the values balance.
#[derive(Clone, Copy, Debug)]
pub struct BindingSigningKey {
    bytes: [u8; 32],
}

impl View for BindingSigningKey {
    type V = Seq<u8>;

    closed spec fn view(&self) -> Seq<u8> {
        self.bytes@
    }
}

/// The canonical encoding of the scalar sum of a non-empty sequence of
/// canonical scalar encodings, added left to right.
pub open spec fn spec_sum_fq(s: Seq<Seq<u8>>) -> Seq<u8>
    recommends
        s.len() >= 1,
    decreases s.len(),
{
    if s.len() <= 1 {
        s[0]
    } else {
        spec_fq_add(spec_sum_fq(s.drop_last()), s.last())
    }
}

impl BindingSigningKey {
    #[verifier::type_invariant]
    pub(crate) open spec fn canonical(self) -> bool {
        spec_fq_canonical(self@)
    }

    /// Accumulate `bsk` as the scalar sum of the bundle's trapdoors, in
    /// order.
    pub fn sum(trapdoors: &Vec<value::CommitmentTrapdoor>) -> (r: BindingSigningKey)
        requires
            trapdoors@.len() >= 1,
        ensures
            r@ == spec_sum_fq(trapdoors@.map_values(|t: value::CommitmentTrapdoor| t@)),
    {
        let ghost views = trapdoors@.map_values(|t: value::CommitmentTrapdoor| t@);
        let first = trapdoors[0];
        proof {
            use_type_invariant(&first);
            assert(views.take(1)[0] == views[0]);
        }
        let mut acc = first.to_bytes();
        let mut i: usize = 1;
        while i < trapdoors.len()
            invariant
                1 <= i <= trapdoors@.len(),
                views == trapdoors@.map_values(|t: value::CommitmentTrapdoor| t@),
                acc@ == spec_sum_fq(views.take(i as int)),
                spec_fq_canonical(acc@),
            decreases trapdoors@.len() - i,
        {
            let next = trapdoors[i];
            proof {
                use_type_invariant(&next);
                assert(views.take(i + 1).drop_last() =~= views.take(i as int));
                assert(views.take(i + 1).last() == views[i as int]);
            }
            let next_bytes = next.to_bytes();
            acc = fq_add(&acc, &next_bytes);
            i = i + 1;
        }
        proof {
            assert(views.take(trapdoors@.len() as int) =~= views);
        }
        BindingSigningKey { bytes: acc }
    }

    /// Whether this key is the zero scalar, the degenerate case bundle
    /// construction rejects.
    pub fn is_zero(&self) -> (r: bool)
        ensures
            r == (self@ =~= Seq::new(32, |_i: int| 0u8)),
    {
        let zero = [0u8; 32];
        proof {
            assert(zero@ =~= Seq::new(32, |_i: int| 0u8));
        }
        crate::encoding::bytes32_eq(&self.bytes, &zero)
    }

    /// Sign the bundle sighash; the signature verifies under
    /// `bvk = [bsk]R`.
    pub fn sign(
        &self,
        sighash: &bundle::SigHash,
        rng: &mut rand::rngs::StdRng,
    ) -> (r: bundle::Signature)
        ensures
            spec_binding_verify(spec_binding_public(self@), sighash@, r@),
    {
        proof {
            use_type_invariant(self);
        }
        let msg = sighash.to_bytes();
        bundle::Signature::from_array(binding_sign(&self.bytes, &msg, rng))
    }

    /// Derive the binding verification key `bvk = [bsk]R`, for the
    /// internal fault check against the validator-side derivation.
    pub fn derive_binding_public(&self) -> (r: BindingVerificationKey)
        ensures
            r@ == spec_binding_public(self@),
    {
        proof {
            use_type_invariant(self);
        }
        BindingVerificationKey::from_array(binding_public(&self.bytes))
    }
}

} // verus!
