//! Protocol-wide domain separators and personalizations.
//!
//! Every BLAKE2b personalization is at most 16 bytes (the BLAKE2b personal
//! field width). The `z.cash:` domain strings are fed to hash-to-curve or
//! prefixed to hash inputs. The arrays below spell the ASCII bytes of each
//! string; the doc comment of each constant gives the text.

use vstd::prelude::*;

verus! {

/// BLAKE2b-512 personalization for `PRF^expand`, the key expansion from a
/// spending key to child keys (`ask`, `nk`, `pk`): the ASCII bytes of
/// `"Zcash_ExpandSeed"`.
pub const PRF_EXPAND_PERSONALIZATION: [u8; 16] = [0x5a, 0x63, 0x61, 0x73, 0x68, 0x5f, 0x45, 0x78,
    0x70, 0x61, 0x6e, 0x64, 0x53, 0x65, 0x65, 0x64];

/// BLAKE2b-512 personalization for the bundle sighash: the ASCII bytes of
/// `"Tachyon-BndlHash"`.
///
/// All signatures (action and binding) sign this one digest. The hash covers
/// the interleaved `(cv, rk)` pairs of every action plus `value_balance`;
/// the stamp is excluded because it is stripped during aggregation.
pub const SIGHASH_PERSONALIZATION: [u8; 16] = [0x54, 0x61, 0x63, 0x68, 0x79, 0x6f, 0x6e, 0x2d,
    0x42, 0x6e, 0x64, 0x6c, 0x48, 0x61, 0x73, 0x68];

/// BLAKE2b-512 personalization for spend-side alpha derivation: the ASCII
/// bytes of `"Tachyon-Spend"`.
///
/// Domain-separated from the output personalization so an alpha derived for
/// one effect can never be reused for the other.
pub const SPEND_ALPHA_PERSONALIZATION: [u8; 13] = [0x54, 0x61, 0x63, 0x68, 0x79, 0x6f, 0x6e, 0x2d,
    0x53, 0x70, 0x65, 0x6e, 0x64];

/// BLAKE2b-512 personalization for output-side alpha derivation: the ASCII
/// bytes of `"Tachyon-Output"`.
pub const OUTPUT_ALPHA_PERSONALIZATION: [u8; 14] = [0x54, 0x61, 0x63, 0x68, 0x79, 0x6f, 0x6e, 0x2d,
    0x4f, 0x75, 0x74, 0x70, 0x75, 0x74];

/// Domain prefix for nullifier derivation: the ASCII bytes of
/// `"z.cash:Tachyon-nf"`.
pub const NULLIFIER_DOMAIN: [u8; 17] = [0x7a, 0x2e, 0x63, 0x61, 0x73, 0x68, 0x3a, 0x54, 0x61, 0x63,
    0x68, 0x79, 0x6f, 0x6e, 0x2d, 0x6e, 0x66];

/// Domain prefix for note commitments: the ASCII bytes of
/// `"z.cash:Tachyon-NoteCommit"`.
pub const NOTE_COMMITMENT_DOMAIN: [u8; 25] = [0x7a, 0x2e, 0x63, 0x61, 0x73, 0x68, 0x3a, 0x54, 0x61,
    0x63, 0x68, 0x79, 0x6f, 0x6e, 0x2d, 0x4e, 0x6f, 0x74, 0x65, 0x43, 0x6f, 0x6d, 0x6d, 0x69,
    0x74];

/// Domain for the polynomial-accumulator hash-to-curve: the ASCII bytes of
/// `"z.cash:Tachyon-acc"`.
pub const ACCUMULATOR_DOMAIN: [u8; 18] = [0x7a, 0x2e, 0x63, 0x61, 0x73, 0x68, 0x3a, 0x54, 0x61,
    0x63, 0x68, 0x79, 0x6f, 0x6e, 0x2d, 0x61, 0x63, 0x63];

/// Maximum note value in zatoshis; construction of larger values is rejected.
pub const NOTE_VALUE_MAX: u64 = 2_100_000_000_000_000;

/// PRF domain-separator byte for `ask` (spend authorizing key, scalar field).
pub const PRF_DOMAIN_ASK: u8 = 0x09;

/// PRF domain-separator byte for `nk` (nullifier key, base field).
pub const PRF_DOMAIN_NK: u8 = 0x0a;

/// PRF domain-separator byte for `pk` (payment key, base field).
pub const PRF_DOMAIN_PK: u8 = 0x0b;

} // verus!
