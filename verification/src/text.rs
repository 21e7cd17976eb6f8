//! Character-level text helpers: ASCII case folding, equality and substring
//! search over character sequences. Keyword matching and override parsing are
//! ASCII case-insensitive; characters outside A-Z pass through unchanged.
use vstd::prelude::*;
use vstd::string::StrSliceExecFns;

verus! {

/// `c` with an ASCII upper-case letter folded to lower case.
pub open spec fn spec_lower_char(c: char) -> char {
    match c {
        'A' => 'a',
        'B' => 'b',
        'C' => 'c',
        'D' => 'd',
        'E' => 'e',
        'F' => 'f',
        'G' => 'g',
        'H' => 'h',
        'I' => 'i',
        'J' => 'j',
        'K' => 'k',
        'L' => 'l',
        'M' => 'm',
        'N' => 'n',
        'O' => 'o',
        'P' => 'p',
        'Q' => 'q',
        'R' => 'r',
        'S' => 's',
        'T' => 't',
        'U' => 'u',
        'V' => 'v',
        'W' => 'w',
        'X' => 'x',
        'Y' => 'y',
        'Z' => 'z',
        _ => c,
    }
}

/// `s` folded to lower case, character by character.
pub open spec fn spec_lower(s: Seq<char>) -> Seq<char> {
    s.map_values(|c: char| spec_lower_char(c))
}

/// Whether `needle` occurs contiguously in `hay`.
pub open spec fn spec_contains(hay: Seq<char>, needle: Seq<char>) -> bool {
    exists|i: int|
        0 <= i && i + needle.len() <= hay.len() && #[trigger] hay.subrange(
            i,
            i + needle.len() as int,
        ) == needle
}

/// `c` with an ASCII upper-case letter folded to lower case.
pub fn lower_char(c: char) -> (r: char)
    ensures
        r == spec_lower_char(c),
{
    match c {
        'A' => 'a',
        'B' => 'b',
        'C' => 'c',
        'D' => 'd',
        'E' => 'e',
        'F' => 'f',
        'G' => 'g',
        'H' => 'h',
        'I' => 'i',
        'J' => 'j',
        'K' => 'k',
        'L' => 'l',
        'M' => 'm',
        'N' => 'n',
        'O' => 'o',
        'P' => 'p',
        'Q' => 'q',
        'R' => 'r',
        'S' => 's',
        'T' => 't',
        'U' => 'u',
        'V' => 'v',
        'W' => 'w',
        'X' => 'x',
        'Y' => 'y',
        'Z' => 'z',
        _ => c,
    }
}

/// The characters of `s`, in order.
pub fn chars_of(s: &str) -> (v: Vec<char>)
    ensures
        v@ == s@,
{
    let n = s.unicode_len();
    let mut v: Vec<char> = Vec::new();
    for i in 0..n
        invariant
            n == s@.len(),
            v@.len() == i,
            forall|t: int| 0 <= t < i ==> v@[t] == s@[t],
    {
        v.push(s.get_char(i));
    }
    proof {
        assert(v@ =~= s@);
    }
    v
}

/// The characters of `s`, folded to lower case.
pub fn lower_chars(s: &str) -> (v: Vec<char>)
    ensures
        v@ == spec_lower(s@),
{
    let n = s.unicode_len();
    let mut v: Vec<char> = Vec::new();
    for i in 0..n
        invariant
            n == s@.len(),
            v@.len() == i,
            forall|t: int| 0 <= t < i ==> v@[t] == spec_lower_char(s@[t]),
    {
        v.push(lower_char(s.get_char(i)));
    }
    proof {
        assert(v@ =~= spec_lower(s@));
    }
    v
}

/// Whether two character sequences are equal.
pub fn chars_eq(a: &Vec<char>, b: &Vec<char>) -> (r: bool)
    ensures
        r == (a@ == b@),
{
    if a.len() != b.len() {
        return false;
    }
    let n = a.len();
    for i in 0..n
        invariant
            n == a@.len() == b@.len(),
            forall|t: int| 0 <= t < i ==> a@[t] == b@[t],
    {
        if a[i] != b[i] {
            return false;
        }
    }
    proof {
        assert(a@ =~= b@);
    }
    true
}

/// Whether `needle` occurs contiguously in `hay`.
pub fn contains_chars(hay: &Vec<char>, needle: &Vec<char>) -> (r: bool)
    ensures
        r == spec_contains(hay@, needle@),
{
    let nlen = needle.len();
    let hlen = hay.len();
    if nlen > hlen {
        return false;
    }
    let last = hlen - nlen;
    let mut i: usize = 0;
    while i <= last
        invariant
            nlen == needle@.len(),
            hlen == hay@.len(),
            nlen <= hlen,
            last == hlen - nlen,
            i <= last + 1,
            forall|t: int|
                0 <= t < i ==> #[trigger] hay@.subrange(t, t + needle@.len() as int) != needle@,
        decreases last + 1 - i,
    {
        let mut all: bool = true;
        let mut j: usize = 0;
        while j < nlen
            invariant
                nlen == needle@.len(),
                hlen == hay@.len(),
                i + nlen <= hlen,
                j <= nlen,
                !all ==> j == nlen,
                all == (forall|t: int| 0 <= t < j ==> hay@[i + t] == needle@[t]),
            decreases nlen - j,
        {
            if hay[i + j] != needle[j] {
                all = false;
                j = nlen;
            } else {
                proof {
                    assert(forall|t: int| 0 <= t < j + 1 ==> hay@[i + t] == needle@[t]);
                }
                j = j + 1;
            }
        }
        if all {
            proof {
                assert(hay@.subrange(i as int, i + needle@.len() as int) =~= needle@);
            }
            return true;
        }
        proof {
            assert(hay@.subrange(i as int, i + needle@.len() as int) != needle@) by {
                if hay@.subrange(i as int, i + needle@.len() as int) == needle@ {
                    assert(forall|t: int|
                        0 <= t < needle@.len() ==> #[trigger] (hay@.subrange(
                            i as int,
                            i + needle@.len() as int,
                        )[t]) == hay@[i + t]);
                }
            };
        }
        i = i + 1;
    }
    proof {
        assert(forall|t: int|
            0 <= t && t + needle@.len() <= hay@.len() ==> #[trigger] hay@.subrange(
                t,
                t + needle@.len() as int,
            ) != needle@);
    }
    false
}

} // verus!
