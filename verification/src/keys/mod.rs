//! The Tachyon key hierarchy.
//!
//! A spending key `sk` derives, by domain-separated PRF expansion:
//!
//! - `ask`, the spend authorizing key (scalar field), sign-normalized so
//!   that `ak = [ask]G` has y-sign bit 0;
//! - `nk`, the nullifier key (base field), an observer-only capability;
//! - `pk`, the payment key (base field), static per spending key.
//!
//! `ak` and `nk` together form the proof authorizing key `pak`, which
//! authorizes proof construction without spend authority. Per action, fresh
//! entropy `theta` and the note commitment derive the randomizer `alpha`,
//! and from it the ephemeral signing key `rsk` (`ask + alpha` for spends,
//! `alpha` for outputs) and verification key `rk`.

pub mod note;
pub mod private;
pub mod proving;
pub mod public;
pub mod randomizer;

pub use note::{
    spec_note_master, spec_nullifier, spec_nullifier_eval, NoteMasterKey, NullifierKey, PaymentKey,
};
pub use private::{
    prf_expand, spec_ask, spec_ask_candidate, spec_prf_expand, spec_sign_bit, spec_sum_fq,
    ActionSigningKey, BindingSigningKey, SpendAuthorizingKey, SpendingKey,
};
pub use proving::{ProofAuthorizingKey, SpendValidatingKey};
pub use public::{spec_bvk, ActionVerificationKey, BindingVerificationKey};
pub use randomizer::{
    spec_alpha, ActionEntropy, ActionRandomizer, OutputRandomizer, SpendRandomizer,
};
