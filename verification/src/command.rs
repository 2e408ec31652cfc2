//! Commands that a user types at the prompt of a session.

use vstd::prelude::*;

verus! {

/// Whether `c` is whitespace: a character with the Unicode property
/// `White_Space`.
pub open spec fn is_white_space(c: char) -> bool {
    let u: u32 = c as u32;
    (0x09 <= u && u <= 0x0d) || u == 0x20 || u == 0x85 || u == 0xa0 || u == 0x1680 || (0x2000 <= u
        && u <= 0x200a) || u == 0x2028 || u == 0x2029 || u == 0x202f || u == 0x205f || u == 0x3000
}

/// `c` in lower case, if it is an upper-case ASCII letter; else `c`. As a
/// code point.
pub open spec fn lower(c: char) -> u32 {
    let u: u32 = c as u32;
    if 0x41 <= u && u <= 0x5a {
        (u + 0x20) as u32
    } else {
        u
    }
}

/// `s` without its leading whitespace.
pub open spec fn trim_start(s: Seq<char>) -> Seq<char>
    decreases s.len(),
{
    if s.len() > 0 && is_white_space(s.first()) {
        trim_start(s.drop_first())
    } else {
        s
    }
}

/// `s` without its trailing whitespace.
pub open spec fn trim_end(s: Seq<char>) -> Seq<char>
    decreases s.len(),
{
    if s.len() > 0 && is_white_space(s.last()) {
        trim_end(s.drop_last())
    } else {
        s
    }
}

/// `s` without the whitespace at either end.
pub open spec fn trimmed(s: Seq<char>) -> Seq<char> {
    trim_end(trim_start(s))
}

/// Whether `a` and `b` are the same but for the case of ASCII letters.
pub open spec fn same_ignoring_case(a: Seq<char>, b: Seq<char>) -> bool {
    a.len() == b.len() && forall|i: int| 0 <= i < a.len() ==> lower(a[i]) == lower(b[i])
}

/// Whether the line `line` asks to end the session: whether it is the word
/// `exit`, in any case and with any whitespace around it.
pub open spec fn is_exit_line(line: Seq<char>) -> bool {
    same_ignoring_case(trimmed(line), seq!['e', 'x', 'i', 't'])
}

/// Whether `c` is whitespace.
fn white_space(c: char) -> (r: bool)
    ensures
        r == is_white_space(c),
{
    let u: u32 = c as u32;
    (0x09 <= u && u <= 0x0d) || u == 0x20 || u == 0x85 || u == 0xa0 || u == 0x1680 || (0x2000 <= u
        && u <= 0x200a) || u == 0x2028 || u == 0x2029 || u == 0x202f || u == 0x205f || u == 0x3000
}

/// `c` in lower case, if it is an upper-case ASCII letter; else `c`.
fn to_lower(c: char) -> (r: u32)
    ensures
        r == lower(c),
{
    let u: u32 = c as u32;
    if 0x41 <= u && u <= 0x5a {
        u + 0x20
    } else {
        u
    }
}

/// Whether the line `line` asks to end the session.
pub fn is_exit_command(line: &str) -> (exit: bool)
    ensures
        exit == is_exit_line(line@),
{
    let word: [char; 4] = ['e', 'x', 'i', 't'];
    let n: usize = line.unicode_len();
    let mut lo: usize = 0;
    proof {
        assert(line@.subrange(0, n as int) =~= line@);
    }
    while lo < n && white_space(line.get_char(lo))
        invariant
            n == line@.len(),
            lo <= n,
            trim_start(line@) == trim_start(line@.subrange(lo as int, n as int)),
        decreases n - lo,
    {
        proof {
            let rest = line@.subrange(lo as int, n as int);
            assert(rest.drop_first() =~= line@.subrange(lo + 1, n as int));
        }
        lo = lo + 1;
    }
    let mut hi: usize = n;
    while hi > lo && white_space(line.get_char(hi - 1))
        invariant
            n == line@.len(),
            lo <= hi <= n,
            trim_start(line@) == line@.subrange(lo as int, n as int),
            trimmed(line@) == trim_end(line@.subrange(lo as int, hi as int)),
        decreases hi - lo,
    {
        proof {
            let rest = line@.subrange(lo as int, hi as int);
            assert(rest.drop_last() =~= line@.subrange(lo as int, hi - 1));
        }
        hi = hi - 1;
    }
    if hi - lo != 4 {
        return false;
    }
    let mut i: usize = 0;
    while i < 4
        invariant
            i <= 4,
            lo + 4 == hi,
            hi <= line@.len(),
            trimmed(line@) == line@.subrange(lo as int, hi as int),
            word@ == seq!['e', 'x', 'i', 't'],
            forall|j: int| 0 <= j < i ==> lower(trimmed(line@)[j]) == lower(word@[j]),
        decreases 4 - i,
    {
        if to_lower(line.get_char(lo + i)) != to_lower(word[i]) {
            return false;
        }
        i = i + 1;
    }
    true
}

} // verus!
