//! Domain-separated BLAKE2b-512.

use vstd::prelude::*;

verus! {

/// The 64-byte BLAKE2b-512 digest of `data` under the given (at most
/// 16-byte) personalization. The digest is a function of the two arguments
/// alone; it is left uninterpreted because no short statement captures it.
pub uninterp spec fn spec_blake2b512(personal: Seq<u8>, data: Seq<u8>) -> Seq<u8>;

/// Relies on `blake2b_simd::Params`: BLAKE2b with `hash_length(64)` and the
/// given `personal` field returns a 64-byte digest determined by the
/// personalization and the input bytes alone. `personal` longer than 16
/// bytes would make `Params::personal` panic, so it is excluded.
#[verifier::external_body]
pub(crate) fn blake2b512(personal: &[u8], data: &Vec<u8>) -> (r: [u8; 64])
    requires
        personal@.len() <= 16,
    ensures
        r@ == spec_blake2b512(personal@, data@),
{
    *blake2b_simd::Params::new()
        .hash_length(64)
        .personal(personal)
        .to_state()
        .update(data.as_slice())
        .finalize()
        .as_array()
}

} // verus!
