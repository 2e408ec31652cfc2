//! Small operations on byte strings: prefixes, equality and trimming.

use vstd::prelude::*;
use vstd::slice::slice_subrange;

verus! {

/// Whether `b` is ASCII whitespace: a space, a tab, a line feed, a vertical
/// tab, a form feed or a carriage return.
pub open spec fn is_blank(b: u8) -> bool {
    b == 32 || (9 <= b && b <= 13)
}

/// `s` without its leading whitespace.
pub open spec fn trim_start(s: Seq<u8>) -> Seq<u8>
    decreases s.len(),
{
    if s.len() > 0 && is_blank(s.first()) {
        trim_start(s.drop_first())
    } else {
        s
    }
}

/// `s` without its trailing whitespace.
pub open spec fn trim_end(s: Seq<u8>) -> Seq<u8>
    decreases s.len(),
{
    if s.len() > 0 && is_blank(s.last()) {
        trim_end(s.drop_last())
    } else {
        s
    }
}

/// `s` without the whitespace at either end.
pub open spec fn trimmed(s: Seq<u8>) -> Seq<u8> {
    trim_end(trim_start(s))
}

/// Whether `b` is ASCII whitespace.
pub fn blank(b: u8) -> (r: bool)
    ensures
        r == is_blank(b),
{
    b == 32 || (9 <= b && b <= 13)
}

/// Whether the two byte strings hold the same bytes.
pub fn bytes_equal(a: &[u8], b: &[u8]) -> (same: bool)
    ensures
        same == (a@ == b@),
{
    if a.len() != b.len() {
        return false;
    }
    let mut i: usize = 0;
    while i < a.len()
        invariant
            a.len() == b.len(),
            i <= a.len(),
            forall|j: int| 0 <= j < i ==> a@[j] == b@[j],
        decreases a.len() - i,
    {
        if a[i] != b[i] {
            return false;
        }
        i = i + 1;
    }
    assert(a@ =~= b@);
    true
}

/// Whether `data` begins with `prefix`.
pub fn starts_with(data: &[u8], prefix: &[u8]) -> (r: bool)
    ensures
        r == prefix@.is_prefix_of(data@),
{
    if prefix.len() > data.len() {
        return false;
    }
    bytes_equal(slice_subrange(data, 0, prefix.len()), prefix)
}

/// `data` without the whitespace at either end.
pub fn trim(data: &[u8]) -> (inner: &[u8])
    ensures
        inner@ == trimmed(data@),
{
    let n: usize = data.len();
    let mut lo: usize = 0;
    proof {
        assert(data@.subrange(0, n as int) =~= data@);
    }
    while lo < n && blank(data[lo])
        invariant
            n == data.len(),
            lo <= n,
            trim_start(data@) == trim_start(data@.subrange(lo as int, n as int)),
        decreases n - lo,
    {
        proof {
            let rest = data@.subrange(lo as int, n as int);
            assert(rest.drop_first() =~= data@.subrange(lo + 1, n as int));
        }
        lo = lo + 1;
    }
    let mut hi: usize = n;
    while hi > lo && blank(data[hi - 1])
        invariant
            n == data.len(),
            lo <= hi <= n,
            trim_start(data@) == data@.subrange(lo as int, n as int),
            trimmed(data@) == trim_end(data@.subrange(lo as int, hi as int)),
        decreases hi - lo,
    {
        proof {
            let rest = data@.subrange(lo as int, hi as int);
            assert(rest.drop_last() =~= data@.subrange(lo as int, hi - 1));
        }
        hi = hi - 1;
    }
    slice_subrange(data, lo, hi)
}

} // verus!
