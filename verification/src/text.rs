//! Character-sequence utilities: equality, substring containment, and the
//! decimal rendering of a window handle. Window class names and the external
//! eligibility list are matched with these.

use vstd::prelude::*;

verus! {

/// `needle` occurs contiguously somewhere in `hay`.
pub open spec fn contains_seq(hay: Seq<char>, needle: Seq<char>) -> bool {
    exists|i: int|
        0 <= i && i + needle.len() <= hay.len() && #[trigger] hay.subrange(i, i + needle.len())
            == needle
}

/// Character-by-character string equality.
pub fn str_eq(a: &str, b: &str) -> (r: bool)
    ensures
        r == (a@ == b@),
{
    let a_len = a.unicode_len();
    let b_len = b.unicode_len();
    if a_len != b_len {
        return false;
    }
    let mut i: usize = 0;
    while i < a_len
        invariant
            i <= a_len,
            a_len == a@.len(),
            a_len == b@.len(),
            forall|j: int| 0 <= j < i ==> a@[j] == b@[j],
        decreases a_len - i,
    {
        if a.get_char(i) != b.get_char(i) {
            return false;
        }
        i = i + 1;
    }
    proof {
        assert(a@ =~= b@);
    }
    true
}

/// The characters of `s`, as a vector.
pub fn str_chars(s: &str) -> (r: Vec<char>)
    ensures
        r@ == s@,
{
    let len = s.unicode_len();
    let mut r: Vec<char> = Vec::new();
    let mut i: usize = 0;
    while i < len
        invariant
            i <= len,
            len == s@.len(),
            r@ == s@.subrange(0, i as int),
        decreases len - i,
    {
        r.push(s.get_char(i));
        proof {
            assert(r@ =~= s@.subrange(0, i + 1 as int));
        }
        i = i + 1;
    }
    proof {
        assert(r@ =~= s@);
    }
    r
}

/// Whether `needle` occurs in `hay` starting at position `at`.
fn matches_at(hay: &str, hay_len: usize, needle: &Vec<char>, at: usize) -> (r: bool)
    requires
        hay_len == hay@.len(),
        at + needle@.len() <= hay@.len(),
    ensures
        r == (hay@.subrange(at as int, at + needle@.len()) == needle@),
{
    let n = needle.len();
    let mut k: usize = 0;
    while k < n
        invariant
            k <= n,
            n == needle@.len(),
            hay_len == hay@.len(),
            at + n <= hay_len,
            forall|j: int| 0 <= j < k ==> hay@[at + j] == needle@[j],
        decreases n - k,
    {
        if hay.get_char(at + k) != needle[k] {
            proof {
                assert(hay@.subrange(at as int, at + needle@.len())[k as int] == hay@[at + k]);
            }
            return false;
        }
        k = k + 1;
    }
    proof {
        assert(hay@.subrange(at as int, at + needle@.len()) =~= needle@);
    }
    true
}

/// Substring search: does `needle` occur anywhere in `hay`?
pub fn contains_chars(hay: &str, needle: &Vec<char>) -> (r: bool)
    ensures
        r == contains_seq(hay@, needle@),
{
    let hay_len = hay.unicode_len();
    let n = needle.len();
    if n > hay_len {
        return false;
    }
    let last = hay_len - n;
    let mut i: usize = 0;
    loop
        invariant
            n == needle@.len(),
            hay_len == hay@.len(),
            n <= hay_len,
            last == hay_len - n,
            i <= last,
            forall|j: int|
                0 <= j < i ==> #[trigger] hay@.subrange(j, j + needle@.len()) != needle@,
        decreases last - i,
    {
        if matches_at(hay, hay_len, needle, i) {
            return true;
        }
        if i == last {
            return false;
        }
        i = i + 1;
    }
}

/// Substring search over two string slices.
pub fn str_contains(hay: &str, needle: &str) -> (r: bool)
    ensures
        r == contains_seq(hay@, needle@),
{
    let needle_chars = str_chars(needle);
    contains_chars(hay, &needle_chars)
}

/// The character for one decimal digit.
pub open spec fn decimal_digit(d: int) -> char {
    if d == 0 {
        '0'
    } else if d == 1 {
        '1'
    } else if d == 2 {
        '2'
    } else if d == 3 {
        '3'
    } else if d == 4 {
        '4'
    } else if d == 5 {
        '5'
    } else if d == 6 {
        '6'
    } else if d == 7 {
        '7'
    } else if d == 8 {
        '8'
    } else {
        '9'
    }
}

/// The decimal rendering of `n`, most significant digit first, no sign and
/// no leading zeros (a single `'0'` for zero).
pub open spec fn spec_decimal(n: int) -> Seq<char>
    decreases n,
{
    if n < 10 {
        seq![decimal_digit(n)]
    } else {
        spec_decimal(n / 10).push(decimal_digit(n % 10))
    }
}

fn digit_char(d: u64) -> (c: char)
    requires
        d < 10,
    ensures
        c == decimal_digit(d as int),
{
    if d == 0 {
        '0'
    } else if d == 1 {
        '1'
    } else if d == 2 {
        '2'
    } else if d == 3 {
        '3'
    } else if d == 4 {
        '4'
    } else if d == 5 {
        '5'
    } else if d == 6 {
        '6'
    } else if d == 7 {
        '7'
    } else if d == 8 {
        '8'
    } else {
        '9'
    }
}

/// The decimal digits of `n`.
pub fn decimal_chars(n: u64) -> (r: Vec<char>)
    ensures
        r@ == spec_decimal(n as int),
    decreases n,
{
    if n < 10 {
        let mut r: Vec<char> = Vec::new();
        r.push(digit_char(n));
        proof {
            assert(r@ =~= spec_decimal(n as int));
        }
        r
    } else {
        let mut r = decimal_chars(n / 10);
        r.push(digit_char(n % 10));
        proof {
            assert(r@ =~= spec_decimal(n as int));
        }
        r
    }
}

} // verus!
