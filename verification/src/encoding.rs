//! Byte-level encodings: little-endian integer views of fixed-width byte
//! strings, comparison, and the little-endian encoding of a signed balance.

use vstd::prelude::*;

verus! {

/// `256^n`.
pub open spec fn pow256(n: nat) -> nat
    decreases n,
{
    if n == 0 {
        1
    } else {
        256 * pow256((n - 1) as nat)
    }
}

/// The natural number a byte string encodes in little-endian order.
pub open spec fn spec_le_nat(b: Seq<u8>) -> nat
    decreases b.len(),
{
    if b.len() == 0 {
        0
    } else {
        spec_le_nat(b.drop_last()) + (b.last() as nat) * pow256((b.len() - 1) as nat)
    }
}

/// The 8-byte little-endian encoding of a 64-bit value.
pub open spec fn spec_le64(x: u64) -> Seq<u8> {
    seq![
        (x & 0xff) as u8,
        ((x >> 8) & 0xff) as u8,
        ((x >> 16) & 0xff) as u8,
        ((x >> 24) & 0xff) as u8,
        ((x >> 32) & 0xff) as u8,
        ((x >> 40) & 0xff) as u8,
        ((x >> 48) & 0xff) as u8,
        ((x >> 56) & 0xff) as u8,
    ]
}

/// A little-endian byte string is bounded by `256^len`.
pub proof fn lemma_le_nat_bound(b: Seq<u8>)
    ensures
        spec_le_nat(b) < pow256(b.len()),
    decreases b.len(),
{
    if b.len() == 0 {
    } else {
        let n = (b.len() - 1) as nat;
        lemma_le_nat_bound(b.drop_last());
        assert(b.last() * pow256(n) <= 255 * pow256(n)) by (nonlinear_arith)
            requires b.last() <= 255, pow256(n) >= 0;
        assert(pow256(n) + 255 * pow256(n) == 256 * pow256(n)) by (nonlinear_arith);
    }
}

/// If two equal-length byte strings agree above position `k` and differ in
/// the high direction at `k`, the little-endian values are ordered.
pub proof fn lemma_le_nat_lt(a: Seq<u8>, b: Seq<u8>, k: int)
    requires
        a.len() == b.len(),
        0 <= k < a.len(),
        forall|j: int| k < j < a.len() ==> a[j] == b[j],
        a[k] < b[k],
    ensures
        spec_le_nat(a) < spec_le_nat(b),
    decreases a.len(),
{
    let n = (a.len() - 1) as nat;
    if k == a.len() - 1 {
        lemma_le_nat_bound(a.drop_last());
        assert((a[k] + 1) * pow256(n) <= b[k] * pow256(n)) by (nonlinear_arith)
            requires a[k] + 1 <= b[k], pow256(n) >= 0;
        assert((a[k] + 1) * pow256(n) == a[k] * pow256(n) + pow256(n)) by (nonlinear_arith);
        assert(spec_le_nat(b.drop_last()) >= 0);
    } else {
        assert(a.last() == b.last());
        assert(a.drop_last().len() == b.drop_last().len());
        assert(forall|j: int| k < j < a.drop_last().len() ==> a.drop_last()[j] == b.drop_last()[j]);
        assert(a.drop_last()[k] == a[k] && b.drop_last()[k] == b[k]);
        lemma_le_nat_lt(a.drop_last(), b.drop_last(), k);
    }
}

/// Compare two 32-byte strings as little-endian integers.
pub fn bytes32_lt(a: &[u8; 32], b: &[u8; 32]) -> (r: bool)
    ensures
        r == (spec_le_nat(a@) < spec_le_nat(b@)),
{
    let mut i: usize = 32;
    loop
        invariant
            0 <= i <= 32,
            forall|j: int| i <= j < 32 ==> a@[j] == b@[j],
        decreases i,
    {
        if i == 0 {
            proof {
                assert(a@ =~= b@);
            }
            return false;
        }
        i = i - 1;
        let x = a[i];
        let y = b[i];
        if x < y {
            proof {
                lemma_le_nat_lt(a@, b@, i as int);
            }
            return true;
        }
        if y < x {
            proof {
                lemma_le_nat_lt(b@, a@, i as int);
            }
            return false;
        }
    }
}

/// Whether two 32-byte strings are equal.
pub fn bytes32_eq(a: &[u8; 32], b: &[u8; 32]) -> (r: bool)
    ensures
        r == (a@ == b@),
{
    let mut i: usize = 0;
    while i < 32
        invariant
            0 <= i <= 32,
            forall|j: int| 0 <= j < i ==> a@[j] == b@[j],
        decreases 32 - i,
    {
        if a[i] != b[i] {
            return false;
        }
        i = i + 1;
    }
    proof {
        assert(a@ =~= b@);
    }
    true
}

/// The 8-byte little-endian encoding of a 64-bit value.
pub fn le64(x: u64) -> (r: Vec<u8>)
    ensures
        r@ == spec_le64(x),
{
    let mut out: Vec<u8> = Vec::new();
    out.push((x & 0xff) as u8);
    out.push(((x >> 8) & 0xff) as u8);
    out.push(((x >> 16) & 0xff) as u8);
    out.push(((x >> 24) & 0xff) as u8);
    out.push(((x >> 32) & 0xff) as u8);
    out.push(((x >> 40) & 0xff) as u8);
    out.push(((x >> 48) & 0xff) as u8);
    out.push(((x >> 56) & 0xff) as u8);
    proof {
        assert(out@ =~= spec_le64(x));
    }
    out
}

/// Append every byte of a byte string to a vector.
pub fn extend_bytes(out: &mut Vec<u8>, bytes: &[u8])
    ensures
        final(out)@ == old(out)@ + bytes@,
{
    let n = bytes.len();
    let mut i: usize = 0;
    while i < n
        invariant
            0 <= i <= n,
            n == bytes@.len(),
            out@ == old(out)@ + bytes@.take(i as int),
        decreases n - i,
    {
        out.push(bytes[i]);
        proof {
            assert(out@ =~= old(out)@ + bytes@.take(i + 1));
        }
        i = i + 1;
    }
    proof {
        assert(bytes@.take(n as int) =~= bytes@);
    }
}

} // verus!
