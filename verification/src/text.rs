//! Character-level helpers on strings: whitespace as Rust's `char::is_whitespace`
//! defines it, trimming, and comparisons that the configuration rules need.
use vstd::prelude::*;
use vstd::string::*;

verus! {

/// The Unicode `White_Space` property, which `char::is_whitespace` (and therefore
/// `str::trim`) uses.
pub open spec fn is_space(c: char) -> bool {
    let u = c as u32;
    ||| 0x09 <= u <= 0x0D
    ||| u == 0x20
    ||| u == 0x85
    ||| u == 0xA0
    ||| u == 0x1680
    ||| 0x2000 <= u <= 0x200A
    ||| u == 0x2028
    ||| u == 0x2029
    ||| u == 0x202F
    ||| u == 0x205F
    ||| u == 0x3000
}

/// A string holds a character that is not whitespace: `s.trim()` is not empty.
pub open spec fn has_visible_char(s: Seq<char>) -> bool {
    exists|i: int| 0 <= i < s.len() && !is_space(#[trigger] s[i])
}

/// Index of the first non-whitespace character at or after `i` (or `s.len()`).
pub open spec fn skip_space_from(s: Seq<char>, i: int) -> int
    decreases s.len() - i,
{
    if 0 <= i < s.len() && is_space(s[i]) {
        skip_space_from(s, i + 1)
    } else {
        i
    }
}

/// End (exclusive) of the text in `s[lo..j]` once trailing whitespace is dropped.
pub open spec fn trim_end_from(s: Seq<char>, lo: int, j: int) -> int
    decreases j - lo,
{
    if lo < j && is_space(s[j - 1]) {
        trim_end_from(s, lo, j - 1)
    } else {
        j
    }
}

/// `str::trim`: the string without leading and trailing whitespace.
pub open spec fn trimmed(s: Seq<char>) -> Seq<char> {
    let a = skip_space_from(s, 0);
    s.subrange(a, trim_end_from(s, a, s.len() as int))
}

/// The code point of `char::to_ascii_lowercase`.
pub open spec fn ascii_lower(c: char) -> u32 {
    if 'A' <= c <= 'Z' {
        ((c as u32) + 32) as u32
    } else {
        c as u32
    }
}

/// `str::eq_ignore_ascii_case`.
pub open spec fn eq_ignore_ascii_case(a: Seq<char>, b: Seq<char>) -> bool {
    &&& a.len() == b.len()
    &&& forall|i: int| 0 <= i < a.len() ==> ascii_lower(#[trigger] a[i]) == ascii_lower(b[i])
}

pub(crate) proof fn lemma_skip_space_bounds(s: Seq<char>, i: int)
    requires
        0 <= i <= s.len(),
    ensures
        i <= skip_space_from(s, i) <= s.len(),
        skip_space_from(s, i) < s.len() ==> !is_space(s[skip_space_from(s, i)]),
        forall|k: int| i <= k < skip_space_from(s, i) ==> is_space(#[trigger] s[k]),
    decreases s.len() - i,
{
    if i < s.len() && is_space(s[i]) {
        lemma_skip_space_bounds(s, i + 1);
    }
}

pub(crate) proof fn lemma_trim_end_bounds(s: Seq<char>, lo: int, j: int)
    requires
        0 <= lo <= j <= s.len(),
    ensures
        lo <= trim_end_from(s, lo, j) <= j,
        lo < trim_end_from(s, lo, j) ==> !is_space(s[trim_end_from(s, lo, j) - 1]),
        forall|k: int| trim_end_from(s, lo, j) <= k < j ==> is_space(#[trigger] s[k]),
    decreases j - lo,
{
    if lo < j && is_space(s[j - 1]) {
        lemma_trim_end_bounds(s, lo, j - 1);
    }
}

/// The trimmed text is empty exactly when every character is whitespace.
pub proof fn lemma_trimmed_empty_iff_blank(s: Seq<char>)
    ensures
        (trimmed(s).len() == 0) == !has_visible_char(s),
{
    lemma_skip_space_bounds(s, 0);
    let a = skip_space_from(s, 0);
    lemma_trim_end_bounds(s, a, s.len() as int);
    let b = trim_end_from(s, a, s.len() as int);
    if a < s.len() {
        assert(!is_space(s[a]));
        assert(b > a) by {
            if b == a {
                assert(is_space(s[a]));
            }
        }
    } else {
        assert forall|i: int| 0 <= i < s.len() implies is_space(#[trigger] s[i]) by {}
    }
}

/// `char::is_whitespace`.
pub fn char_is_space(c: char) -> (r: bool)
    ensures
        r == is_space(c),
{
    let u = c as u32;
    (0x09 <= u && u <= 0x0D) || u == 0x20 || u == 0x85 || u == 0xA0 || u == 0x1680 || (0x2000
        <= u && u <= 0x200A) || u == 0x2028 || u == 0x2029 || u == 0x202F || u == 0x205F || u
        == 0x3000
}

/// `!s.trim().is_empty()`: whether the string holds a non-whitespace character.
pub fn is_not_blank(s: &str) -> (r: bool)
    ensures
        r == has_visible_char(s@),
{
    let n = s.unicode_len();
    let mut i: usize = 0;
    while i < n
        invariant
            n == s@.len(),
            i <= n,
            forall|k: int| 0 <= k < i ==> is_space(#[trigger] s@[k]),
        decreases n - i,
    {
        if !char_is_space(s.get_char(i)) {
            return true;
        }
        i = i + 1;
    }
    false
}

/// Character bounds `(a, b)` of `s.trim()` within `s`.
pub fn trim_bounds(s: &str) -> (r: (usize, usize))
    ensures
        r.0 as int == skip_space_from(s@, 0),
        r.1 as int == trim_end_from(s@, r.0 as int, s@.len() as int),
        r.0 <= r.1 <= s@.len(),
{
    let n = s.unicode_len();
    let mut a: usize = 0;
    while a < n && char_is_space(s.get_char(a))
        invariant
            n == s@.len(),
            a <= n,
            skip_space_from(s@, a as int) == skip_space_from(s@, 0),
        decreases n - a,
    {
        a = a + 1;
    }
    let mut b: usize = n;
    while a < b && char_is_space(s.get_char(b - 1))
        invariant
            n == s@.len(),
            a <= b <= n,
            a as int == skip_space_from(s@, 0),
            trim_end_from(s@, a as int, b as int) == trim_end_from(s@, a as int, n as int),
        decreases b - a,
    {
        b = b - 1;
    }
    (a, b)
}

/// `str::trim`, as an owned string.
pub fn trim_text(s: &str) -> (r: String)
    ensures
        r@ == trimmed(s@),
{
    let (a, b) = trim_bounds(s);
    String::from_str(s.substring_char(a, b))
}

/// The code point of `char::to_ascii_lowercase`.
pub fn char_ascii_lower(c: char) -> (r: u32)
    ensures
        r == ascii_lower(c),
{
    if 'A' <= c && c <= 'Z' {
        (c as u32) + 32
    } else {
        c as u32
    }
}

/// `s.trim().eq_ignore_ascii_case(other)`.
pub fn trimmed_eq_ignore_ascii_case(s: &str, other: &str) -> (r: bool)
    ensures
        r == eq_ignore_ascii_case(trimmed(s@), other@),
{
    let (a, b) = trim_bounds(s);
    let m = other.unicode_len();
    assert(trimmed(s@) == s@.subrange(a as int, b as int));
    if b - a != m {
        return false;
    }
    let ghost t = trimmed(s@);
    let mut i: usize = 0;
    while i < m
        invariant
            m == other@.len(),
            t == s@.subrange(a as int, b as int),
            t == trimmed(s@),
            a <= b <= s@.len(),
            b - a == m,
            i <= m,
            forall|k: int| 0 <= k < i ==> ascii_lower(#[trigger] t[k]) == ascii_lower(other@[k]),
        decreases m - i,
    {
        if char_ascii_lower(s.get_char(a + i)) != char_ascii_lower(other.get_char(i)) {
            assert(t[i as int] == s@[a + i]);
            return false;
        }
        assert(t[i as int] == s@[a + i]);
        i = i + 1;
    }
    true
}

/// `a == b` on string slices.
pub fn str_equal(a: &str, b: &str) -> (r: bool)
    ensures
        r == (a@ == b@),
{
    let x = String::from_str(a);
    let y = String::from_str(b);
    x == y
}

} // verus!
