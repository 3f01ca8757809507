//! Tachyon notes, note values, note commitments and nullifiers.
//!
//! A note is `{pk, value, psi, rcm}`: the recipient's payment key, a
//! bounded value, the nullifier trapdoor and the commitment trapdoor. Its
//! commitment `cmx` is a base-field element; spending it at an epoch
//! reveals the nullifier derived from `psi` and the nullifier key.
//!
//! The protocol leaves the concrete commitment and nullifier hashes open;
//! this crate instantiates both with domain-separated BLAKE2b-512 reduced
//! to the base field.

use vstd::prelude::*;

use crate::constants::{NOTE_COMMITMENT_DOMAIN, NOTE_VALUE_MAX};
use crate::encoding::{extend_bytes, le64, spec_le64};
use crate::error::EncodingError;
use crate::keys::{NullifierKey, PaymentKey};
use crate::primitives::{
    blake2b512, fp_check, fp_from_wide, fq_check, spec_blake2b512, spec_fp_canonical,
    spec_fp_from_wide, spec_fq_canonical, Epoch, Tachygram,
};

verus! {

/// The note commitment `cmx`: the note-commitment domain followed by the
/// payment key, the little-endian value, the nullifier trapdoor and the
/// commitment trapdoor, hashed and reduced to the base field.
pub open spec fn spec_note_commitment(pk: Seq<u8>, v: u64, psi: Seq<u8>, rcm: Seq<u8>) -> Seq<u8> {
    spec_fp_from_wide(
        spec_blake2b512(Seq::empty(), NOTE_COMMITMENT_DOMAIN@ + pk + spec_le64(v) + psi + rcm),
    )
}

/// Nullifier trapdoor `psi` — per-note randomness from which, with the
/// nullifier key, the note's master key is derived.
#[derive(Clone, Copy, Debug)]
pub struct NullifierTrapdoor {
    bytes: [u8; 32],
}

impl View for NullifierTrapdoor {
    type V = Seq<u8>;

    closed spec fn view(&self) -> Seq<u8> {
        self.bytes@
    }
}

impl NullifierTrapdoor {
    /// Accept the canonical encoding of a base-field element as a
    /// trapdoor.
    pub fn from_bytes(bytes: [u8; 32]) -> (r: Result<NullifierTrapdoor, EncodingError>)
        ensures
            r is Ok <==> spec_fp_canonical(bytes@),
            r matches Ok(t) ==> t@ == bytes@,
            r is Err ==> r == Err::<NullifierTrapdoor, EncodingError>(
                EncodingError::InvalidFieldElement,
            ),
    {
        if fp_check(&bytes) {
            Ok(NullifierTrapdoor { bytes })
        } else {
            Err(EncodingError::InvalidFieldElement)
        }
    }

    /// The trapdoor's 32-byte encoding.
    pub fn to_bytes(&self) -> (r: [u8; 32])
        ensures
            r@ == self@,
    {
        self.bytes
    }
}

/// Note commitment trapdoor `rcm` — the randomness that blinds the note
/// commitment. It can be derived from a secret negotiated out of band.
#[derive(Clone, Copy, Debug)]
pub struct CommitmentTrapdoor {
    bytes: [u8; 32],
}

impl View for CommitmentTrapdoor {
    type V = Seq<u8>;

    closed spec fn view(&self) -> Seq<u8> {
        self.bytes@
    }
}

impl CommitmentTrapdoor {
    /// Accept the canonical encoding of a scalar-field element as a
    /// trapdoor.
    pub fn from_bytes(bytes: [u8; 32]) -> (r: Result<CommitmentTrapdoor, EncodingError>)
        ensures
            r is Ok <==> spec_fq_canonical(bytes@),
            r matches Ok(t) ==> t@ == bytes@,
            r is Err ==> r == Err::<CommitmentTrapdoor, EncodingError>(
                EncodingError::InvalidFieldElement,
            ),
    {
        if fq_check(&bytes) {
            Ok(CommitmentTrapdoor { bytes })
        } else {
            Err(EncodingError::InvalidFieldElement)
        }
    }

    /// The trapdoor's 32-byte encoding.
    pub fn to_bytes(&self) -> (r: [u8; 32])
        ensures
            r@ == self@,
    {
        self.bytes
    }

    /// Compute the note commitment `cmx`, committing to `(pk, v, psi)`
    /// under this trapdoor.
    pub fn commit(&self, v: Value, pk: &PaymentKey, psi: &NullifierTrapdoor) -> (r: Commitment)
        ensures
            r@ == spec_note_commitment(pk@, v@, psi@, self@),
    {
        let mut data: Vec<u8> = Vec::new();
        extend_bytes(&mut data, NOTE_COMMITMENT_DOMAIN.as_slice());
        let pk_bytes = pk.to_bytes();
        extend_bytes(&mut data, pk_bytes.as_slice());
        let v_bytes = le64(v.to_u64());
        extend_bytes(&mut data, v_bytes.as_slice());
        let psi_bytes = psi.to_bytes();
        extend_bytes(&mut data, psi_bytes.as_slice());
        extend_bytes(&mut data, self.bytes.as_slice());
        let empty: Vec<u8> = Vec::new();
        let digest = blake2b512(empty.as_slice(), &data);
        proof {
            assert(data@ =~= NOTE_COMMITMENT_DOMAIN@ + pk@ + spec_le64(v@) + psi@ + self@);
        }
        Commitment { bytes: fp_from_wide(&digest) }
    }
}

/// A note value in zatoshis, at most [`NOTE_VALUE_MAX`].
#[derive(Clone, Copy, Debug)]
pub struct Value {
    raw: u64,
}

impl View for Value {
    type V = u64;

    closed spec fn view(&self) -> u64 {
        self.raw
    }
}

impl Value {
    #[verifier::type_invariant]
    pub(crate) open spec fn bounded(self) -> bool {
        self@ <= NOTE_VALUE_MAX
    }

    /// Accept a value of at most [`NOTE_VALUE_MAX`] zatoshis; larger
    /// values are rejected.
    pub fn new(raw: u64) -> (r: Result<Value, EncodingError>)
        ensures
            r is Ok <==> raw <= NOTE_VALUE_MAX,
            r matches Ok(v) ==> v@ == raw,
            r is Err ==> r == Err::<Value, EncodingError>(EncodingError::NoteValueOverflow),
    {
        if raw <= NOTE_VALUE_MAX {
            Ok(Value { raw })
        } else {
            Err(EncodingError::NoteValueOverflow)
        }
    }

    /// The raw value.
    pub fn to_u64(&self) -> (r: u64)
        ensures
            r == self@,
            r <= NOTE_VALUE_MAX,
    {
        proof {
            use_type_invariant(self);
        }
        self.raw
    }

    /// The value as a signed balance contribution.
    pub fn to_i64(&self) -> (r: i64)
        ensures
            r == self@,
            0 <= r <= NOTE_VALUE_MAX,
    {
        proof {
            use_type_invariant(self);
        }
        self.raw as i64
    }
}

/// A Tachyon note: a discrete unit of value in the shielded pool, created
/// by an output and consumed by a spend.
#[derive(Clone, Copy, Debug)]
pub struct Note {
    /// The recipient's payment key.
    pub pk: PaymentKey,
    /// The note value.
    pub value: Value,
    /// The nullifier trapdoor `psi`.
    pub psi: NullifierTrapdoor,
    /// The note commitment trapdoor `rcm`.
    pub rcm: CommitmentTrapdoor,
}

impl Note {
    /// The note's commitment under `(pk, value, psi)` and `rcm`.
    pub open spec fn spec_commitment(self) -> Seq<u8> {
        spec_note_commitment(self.pk@, self.value@, self.psi@, self.rcm@)
    }

    /// Compute the note commitment `cmx`.
    pub fn commitment(&self) -> (r: Commitment)
        ensures
            r@ == self.spec_commitment(),
    {
        self.rcm.commit(self.value, &self.pk, &self.psi)
    }

    /// Derive the note's nullifier at the given flavor (epoch).
    ///
    /// The master key `mk = KDF(psi, nk)` is derived ephemerally, then the
    /// nullifier `nf = F_mk(flavor)` is evaluated from it.
    pub fn nullifier(&self, nk: &NullifierKey, flavor: Epoch) -> (r: Nullifier)
        ensures
            r@ == crate::keys::note::spec_nullifier(self.psi@, nk@, flavor@),
    {
        nk.derive_note_private(&self.psi).derive_nullifier(flavor)
    }
}

/// A note commitment `cmx` — a base-field element.
///
/// For an output the commitment itself is the action's tachygram; for a
/// spend it stays private and the derived nullifier is the tachygram.
#[derive(Clone, Copy, Debug)]
pub struct Commitment {
    bytes: [u8; 32],
}

impl View for Commitment {
    type V = Seq<u8>;

    closed spec fn view(&self) -> Seq<u8> {
        self.bytes@
    }
}

impl PartialEq for Commitment {
    fn eq(&self, other: &Commitment) -> (r: bool) {
        crate::encoding::bytes32_eq(&self.bytes, &other.bytes)
    }
}

impl vstd::std_specs::cmp::PartialEqSpecImpl for Commitment {
    open spec fn obeys_eq_spec() -> bool {
        true
    }

    open spec fn eq_spec(&self, other: &Commitment) -> bool {
        self@ == other@
    }
}

impl Commitment {
    /// Accept the canonical encoding of a base-field element as a
    /// commitment.
    pub fn from_bytes(bytes: [u8; 32]) -> (r: Result<Commitment, EncodingError>)
        ensures
            r is Ok <==> spec_fp_canonical(bytes@),
            r matches Ok(c) ==> c@ == bytes@,
            r is Err ==> r == Err::<Commitment, EncodingError>(EncodingError::InvalidFieldElement),
    {
        if fp_check(&bytes) {
            Ok(Commitment { bytes })
        } else {
            Err(EncodingError::InvalidFieldElement)
        }
    }

    /// The commitment's 32-byte encoding.
    pub fn to_bytes(&self) -> (r: [u8; 32])
        ensures
            r@ == self@,
    {
        self.bytes
    }

    /// The commitment as an accumulator tachygram (output actions).
    pub fn to_tachygram(&self) -> (r: Tachygram)
        ensures
            r@ == self@,
    {
        Tachygram::from_array(self.bytes)
    }
}

/// A Tachyon nullifier — the base-field element published when a note is
/// spent, which becomes the spend's tachygram.
#[derive(Clone, Copy, Debug)]
pub struct Nullifier {
    bytes: [u8; 32],
}

impl View for Nullifier {
    type V = Seq<u8>;

    closed spec fn view(&self) -> Seq<u8> {
        self.bytes@
    }
}

impl PartialEq for Nullifier {
    fn eq(&self, other: &Nullifier) -> (r: bool) {
        crate::encoding::bytes32_eq(&self.bytes, &other.bytes)
    }
}

impl vstd::std_specs::cmp::PartialEqSpecImpl for Nullifier {
    open spec fn obeys_eq_spec() -> bool {
        true
    }

    open spec fn eq_spec(&self, other: &Nullifier) -> bool {
        self@ == other@
    }
}

impl Nullifier {
    /// Wrap an encoding the library itself derived.
    pub(crate) fn from_array(bytes: [u8; 32]) -> (r: Nullifier)
        ensures
            r@ == bytes@,
    {
        Nullifier { bytes }
    }

    /// The nullifier's 32-byte encoding.
    pub fn to_bytes(&self) -> (r: [u8; 32])
        ensures
            r@ == self@,
    {
        self.bytes
    }

    /// The nullifier as an accumulator tachygram (spend actions).
    pub fn to_tachygram(&self) -> (r: Tachygram)
        ensures
            r@ == self@,
    {
        Tachygram::from_array(self.bytes)
    }
}

} // verus!
