//! Value commitments.
//!
//! A value commitment hides the value moved by an action:
//! `cv = [v]V + [rcv]R`, with `V` and `R` the hash-to-curve generators of
//! the value-commitment domain and `rcv` the per-action trapdoor. Spends
//! commit to the positive note value, outputs to its negation. The
//! deterministic balance commitment `[v]V` (zero randomness) is what the
//! validator subtracts to recompute the binding verification key.

use vstd::prelude::*;

use crate::error::EncodingError;
use crate::primitives::{
    fq_check, fq_from_signed, mul_rand_base, mul_value_base, point_add, point_check, point_sub,
    random_fq, spec_fq_canonical, spec_fq_from_signed, spec_mul_rand_base, spec_mul_value_base,
    spec_point_add, spec_point_sub, spec_point_valid,
};

verus! {

/// The encoding of the Pedersen commitment `[v]V + [rcv]R` to the signed
/// value `v` under the trapdoor with canonical encoding `rcv`.
pub open spec fn spec_commit(v: int, rcv: Seq<u8>) -> Seq<u8> {
    spec_point_add(spec_mul_value_base(spec_fq_from_signed(v)), spec_mul_rand_base(rcv))
}

/// The encoding of the deterministic balance commitment `[v]V`.
pub open spec fn spec_balance(v: int) -> Seq<u8> {
    spec_mul_value_base(spec_fq_from_signed(v))
}

/// The encoding of the sum of a non-empty sequence of points, added left
/// to right.
pub open spec fn spec_sum_points(s: Seq<Seq<u8>>) -> Seq<u8>
    recommends
        s.len() >= 1,
    decreases s.len(),
{
    if s.len() <= 1 {
        s[0]
    } else {
        spec_point_add(spec_sum_points(s.drop_last()), s.last())
    }
}

/// Value commitment trapdoor `rcv` — the randomness of one action's
/// Pedersen commitment. The binding signing key is the scalar sum of a
/// bundle's trapdoors.
#[derive(Clone, Copy, Debug)]
pub struct CommitmentTrapdoor {
    bytes: [u8; 32],
}

impl View for CommitmentTrapdoor {
    type V = Seq<u8>;

    closed spec fn view(&self) -> Seq<u8> {
        self.bytes@
    }
}

impl CommitmentTrapdoor {
    #[verifier::type_invariant]
    pub(crate) open spec fn canonical(self) -> bool {
        spec_fq_canonical(self@)
    }

    /// Sample a fresh random trapdoor from the caller's generator.
    pub fn random(rng: &mut rand::rngs::StdRng) -> (r: CommitmentTrapdoor) {
        CommitmentTrapdoor { bytes: random_fq(rng) }
    }

    /// Accept the canonical encoding of a scalar-field element as a
    /// trapdoor.
    pub fn from_bytes(bytes: [u8; 32]) -> (r: Result<CommitmentTrapdoor, EncodingError>)
        ensures
            r is Ok <==> spec_fq_canonical(bytes@),
            r matches Ok(t) ==> t@ == bytes@,
            r is Err ==> r == Err::<CommitmentTrapdoor, EncodingError>(
                EncodingError::InvalidFieldElement,
            ),
    {
        if fq_check(&bytes) {
            Ok(CommitmentTrapdoor { bytes })
        } else {
            Err(EncodingError::InvalidFieldElement)
        }
    }

    /// The trapdoor's 32-byte encoding.
    pub fn to_bytes(&self) -> (r: [u8; 32])
        ensures
            r@ == self@,
    {
        self.bytes
    }

    /// Commit to a signed value under this trapdoor:
    /// `cv = [v]V + [rcv]R`. Positive values for spends, negative for
    /// outputs.
    pub fn commit(&self, value: i64) -> (r: Commitment)
        ensures
            r@ == spec_commit(value as int, self@),
    {
        proof {
            use_type_invariant(self);
        }
        let negative = value < 0;
        let magnitude: u64 = if value >= 0 {
            value as u64
        } else {
            (-(value as i128)) as u64
        };
        let scalar = fq_from_signed(negative, magnitude);
        let value_part = mul_value_base(&scalar);
        let rand_part = mul_rand_base(&self.bytes);
        Commitment { bytes: point_add(&value_part, &rand_part) }
    }
}

/// A value commitment `cv` for one action: a Pallas point committing to
/// the action's signed value without revealing it.
#[derive(Clone, Copy, Debug)]
pub struct Commitment {
    bytes: [u8; 32],
}

impl View for Commitment {
    type V = Seq<u8>;

    closed spec fn view(&self) -> Seq<u8> {
        self.bytes@
    }
}

impl PartialEq for Commitment {
    fn eq(&self, other: &Commitment) -> (r: bool) {
        crate::encoding::bytes32_eq(&self.bytes, &other.bytes)
    }
}

impl vstd::std_specs::cmp::PartialEqSpecImpl for Commitment {
    open spec fn obeys_eq_spec() -> bool {
        true
    }

    open spec fn eq_spec(&self, other: &Commitment) -> bool {
        self@ == other@
    }
}

impl Commitment {
    #[verifier::type_invariant]
    pub(crate) open spec fn valid(self) -> bool {
        spec_point_valid(self@)
    }

    /// The deterministic balance commitment `[v]V` (zero randomness),
    /// which the validator subtracts from the sum of a bundle's value
    /// commitments to recompute the binding verification key.
    pub fn balance(value: i64) -> (r: Commitment)
        ensures
            r@ == spec_balance(value as int),
    {
        let negative = value < 0;
        let magnitude: u64 = if value >= 0 {
            value as u64
        } else {
            (-(value as i128)) as u64
        };
        let scalar = fq_from_signed(negative, magnitude);
        Commitment { bytes: mul_value_base(&scalar) }
    }

    /// Accept a compressed Pallas point encoding as a commitment.
    pub fn from_bytes(bytes: [u8; 32]) -> (r: Result<Commitment, EncodingError>)
        ensures
            r is Ok <==> spec_point_valid(bytes@),
            r matches Ok(c) ==> c@ == bytes@,
            r is Err ==> r == Err::<Commitment, EncodingError>(EncodingError::InvalidPoint),
    {
        if point_check(&bytes) {
            Ok(Commitment { bytes })
        } else {
            Err(EncodingError::InvalidPoint)
        }
    }

    /// The commitment's 32-byte encoding.
    pub fn to_bytes(&self) -> (r: [u8; 32])
        ensures
            r@ == self@,
    {
        self.bytes
    }

    /// Point addition of two commitments.
    pub fn add(self, rhs: Commitment) -> (r: Commitment)
        ensures
            r@ == spec_point_add(self@, rhs@),
    {
        proof {
            use_type_invariant(&self);
            use_type_invariant(&rhs);
        }
        Commitment { bytes: point_add(&self.bytes, &rhs.bytes) }
    }

    /// Point subtraction of two commitments.
    pub fn sub(self, rhs: Commitment) -> (r: Commitment)
        ensures
            r@ == spec_point_sub(self@, rhs@),
    {
        proof {
            use_type_invariant(&self);
            use_type_invariant(&rhs);
        }
        Commitment { bytes: point_sub(&self.bytes, &rhs.bytes) }
    }

    /// Point addition over a non-empty sequence of commitments, left to
    /// right.
    pub fn sum(cvs: &Vec<Commitment>) -> (r: Commitment)
        requires
            cvs@.len() >= 1,
        ensures
            r@ == spec_sum_points(cvs@.map_values(|c: Commitment| c@)),
    {
        let ghost views = cvs@.map_values(|c: Commitment| c@);
        let mut acc = cvs[0];
        let mut i: usize = 1;
        proof {
            assert(views.take(1)[0] == views[0]);
        }
        while i < cvs.len()
            invariant
                1 <= i <= cvs@.len(),
                views == cvs@.map_values(|c: Commitment| c@),
                acc@ == spec_sum_points(views.take(i as int)),
            decreases cvs@.len() - i,
    {
            acc = acc.add(cvs[i]);
            proof {
                assert(views.take(i + 1).drop_last() =~= views.take(i as int));
                assert(views.take(i + 1).last() == views[i as int]);
            }
            i = i + 1;
        }
        proof {
            assert(views.take(cvs@.len() as int) =~= views);
        }
        acc
    }
}

} // verus!
