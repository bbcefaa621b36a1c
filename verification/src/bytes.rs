//! Small helpers for building byte strings.

use vstd::prelude::*;

verus! {

/// Append `other` to `out`.
pub fn extend(out: &mut Vec<u8>, other: &[u8])
    ensures
        final(out)@ == old(out)@ + other@,
{
    let ghost start = out@;
    let mut i: usize = 0;
    while i < other.len()
        invariant
            i <= other@.len(),
            out@ == start + other@.subrange(0, i as int),
        decreases other@.len() - i,
    {
        out.push(other[i]);
        i = i + 1;
        assert(out@ == start + other@.subrange(0, i as int));
    }
    assert(other@.subrange(0, other@.len() as int) == other@);
}

/// The concatenation of three byte strings.
pub fn concat3(a: &[u8], b: &[u8], c: &[u8]) -> (out: Vec<u8>)
    ensures
        out@ == a@ + b@ + c@,
{
    let mut out: Vec<u8> = Vec::new();
    extend(&mut out, a);
    extend(&mut out, b);
    extend(&mut out, c);
    out
}

/// Whether two byte strings are equal.
pub fn bytes_eq(a: &[u8], b: &[u8]) -> (eq: bool)
    ensures
        eq == (a@ == b@),
{
    if a.len() != b.len() {
        return false;
    }
    let mut i: usize = 0;
    while i < a.len()
        invariant
            a@.len() == b@.len(),
            i <= a@.len(),
            forall|j: int| 0 <= j < i ==> a@[j] == b@[j],
        decreases a@.len() - i,
    {
        if a[i] != b[i] {
            return false;
        }
        i = i + 1;
    }
    assert(a@ =~= b@);
    true
}

} // verus!
