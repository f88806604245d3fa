//! Small verified helpers for working with strings, which the rest of the
//! crate uses to compare device names, parse command-line values and look up
//! per-platform entries.

use vstd::prelude::*;
use vstd::string::StrSliceExecFns;

verus! {

/// Whether two string slices hold the same characters.
pub(crate) fn str_eq(a: &str, b: &str) -> (r: bool)
    ensures
        r == (a@ == b@),
{
    let alen = a.unicode_len();
    let blen = b.unicode_len();
    if alen != blen {
        return false;
    }
    let mut i: usize = 0;
    while i < alen
        invariant
            i <= alen,
            alen == a@.len(),
            alen == b@.len(),
            forall|j: int| 0 <= j < i ==> a@[j] == b@[j],
        decreases alen - i,
    {
        if a.get_char(i) != b.get_char(i) {
            return false;
        }
        i = i + 1;
    }
    proof {
        assert(a@ =~= b@);
    }
    true
}

/// Whether `c` is `lower` up to ASCII case, where `upper` is the upper-case
/// form of the letter `lower`.
pub open spec fn char_ci_eq(c: char, lower: char, upper: char) -> bool {
    c == lower || c == upper
}

/// Whether the word "default" starts at position `i` of `s`, ignoring ASCII
/// case.
pub open spec fn default_at(s: Seq<char>, i: int) -> bool {
    &&& char_ci_eq(s[i], 'd', 'D')
    &&& char_ci_eq(s[i + 1], 'e', 'E')
    &&& char_ci_eq(s[i + 2], 'f', 'F')
    &&& char_ci_eq(s[i + 3], 'a', 'A')
    &&& char_ci_eq(s[i + 4], 'u', 'U')
    &&& char_ci_eq(s[i + 5], 'l', 'L')
    &&& char_ci_eq(s[i + 6], 't', 'T')
}

/// Whether `s` contains the word "default", ignoring ASCII case.
pub open spec fn spec_contains_default(s: Seq<char>) -> bool {
    exists|i: int| 0 <= i && i + 7 <= s.len() && default_at(s, i)
}

/// Whether the name contains the word "default", ignoring ASCII case; this is
/// how the default input device is recognised among the enumerated ones.
pub(crate) fn contains_default(s: &str) -> (r: bool)
    ensures
        r == spec_contains_default(s@),
{
    let n = s.unicode_len();
    if n < 7 {
        return false;
    }
    let mut i: usize = 0;
    while i <= n - 7
        invariant
            n == s@.len(),
            7 <= n,
            i <= n,
            forall|j: int| 0 <= j < i ==> !default_at(s@, j),
        decreases n - i,
    {
        let c0 = s.get_char(i);
        let c1 = s.get_char(i + 1);
        let c2 = s.get_char(i + 2);
        let c3 = s.get_char(i + 3);
        let c4 = s.get_char(i + 4);
        let c5 = s.get_char(i + 5);
        let c6 = s.get_char(i + 6);
        if (c0 == 'd' || c0 == 'D') && (c1 == 'e' || c1 == 'E') && (c2 == 'f' || c2 == 'F') && (c3
            == 'a' || c3 == 'A') && (c4 == 'u' || c4 == 'U') && (c5 == 'l' || c5 == 'L') && (c6
            == 't' || c6 == 'T') {
            proof {
                assert(default_at(s@, i as int));
            }
            return true;
        }
        i = i + 1;
    }
    false
}

} // verus!
