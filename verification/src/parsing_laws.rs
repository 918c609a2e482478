//! What the text rules do, stated without their definitions: trimming removes
//! exactly the surrounding whitespace, a serial line splits at its first `:`,
//! events route by their upper-cased name, and edited text loses exactly its
//! trailing line breaks.
use vstd::prelude::*;

use crate::serial::{
    event_command, find_char_from, is_line_break, lemma_find_char_bounds, lemma_strip_bounds,
    split_at_colon, strip_line_breaks_end,
};
use crate::text::{
    ascii_lower, is_space, lemma_skip_space_bounds, lemma_trim_end_bounds, skip_space_from, trim_end_from,
    trimmed,
};
use crate::types::MacroType;

verus! {

/// Trimming drops whitespace at both ends and nothing else: the result is a
/// contiguous part of the text, everything before and after it is whitespace,
/// and it neither starts nor ends with whitespace (it is empty only when the
/// whole text is whitespace).
pub proof fn law_trim_strips_whitespace(s: Seq<char>)
    ensures
        exists|a: int, b: int|
            {
                &&& 0 <= a <= b <= s.len()
                &&& trimmed(s) == s.subrange(a, b)
                &&& forall|k: int| 0 <= k < a ==> is_space(#[trigger] s[k])
                &&& forall|k: int| b <= k < s.len() ==> is_space(#[trigger] s[k])
                &&& a < b ==> !is_space(s[a]) && !is_space(s[b - 1])
            },
        trimmed(s).len() == 0 ==> forall|k: int| 0 <= k < s.len() ==> is_space(#[trigger] s[k]),
{
    lemma_skip_space_bounds(s, 0);
    let a = skip_space_from(s, 0);
    lemma_trim_end_bounds(s, a, s.len() as int);
    let b = trim_end_from(s, a, s.len() as int);
    if a < s.len() {
        assert(b > a) by {
            if b == a {
                assert(is_space(s[a]));
            }
        }
    }
    if trimmed(s).len() == 0 {
        assert(a == b);
        assert forall|k: int| 0 <= k < s.len() implies is_space(#[trigger] s[k]) by {
            if k >= a {
                assert(k >= b);
            }
        }
    }
}

/// A serial line splits at its first `:`: there is no split exactly when the
/// line holds no `:`, and otherwise the event, a `:` and the key make up the
/// line, with no `:` in the event.
pub proof fn law_split_at_first_colon(line: Seq<char>)
    ensures
        split_at_colon(line) is None <==> !line.contains(':'),
        forall|event: Seq<char>, key: Seq<char>|
            #[trigger] split_at_colon(line) == Some((event, key)) ==> event + seq![':'] + key
                == line && !event.contains(':'),
{
    lemma_find_char_bounds(line, ':', 0);
    match find_char_from(line, ':', 0) {
        None => {
            if line.contains(':') {
                let k = choose|k: int| 0 <= k < line.len() && line[k] == ':';
                assert(line[k] != ':');
            }
        },
        Some(k) => {
            assert(line.contains(':')) by {
                assert(line[k] == ':');
            }
            let event = line.subrange(0, k);
            let key = line.subrange(k + 1, line.len() as int);
            assert(event + seq![':'] + key =~= line);
            if event.contains(':') {
                let m = choose|m: int| 0 <= m < event.len() && event[m] == ':';
                assert(line[m] == ':');
            }
        },
    }
}

/// An upper-cased event routes to the hold list exactly when it is `HOLD`, to
/// the press list exactly when it is `PRESS`, and nowhere otherwise.
pub proof fn law_event_routing(event: Seq<char>)
    ensures
        (event_command(event) == Some(MacroType::Hold)) == (event == "HOLD"@),
        (event_command(event) == Some(MacroType::Press)) == (event == "PRESS"@),
        (event_command(event) is None) == (event != "HOLD"@ && event != "PRESS"@),
{
    reveal_strlit("HOLD");
    reveal_strlit("PRESS");
    assert("HOLD"@.len() != "PRESS"@.len());
}

/// Stripping edited text removes exactly its trailing `\n` and `\r`: what is
/// kept is a prefix that does not end in a line break, and everything after it
/// is a line break.
pub proof fn law_strip_trailing_line_breaks(s: Seq<char>)
    ensures
        0 <= strip_line_breaks_end(s, s.len() as int) <= s.len(),
        forall|k: int|
            strip_line_breaks_end(s, s.len() as int) <= k < s.len() ==> #[trigger] s[k] == '\n'
                || s[k] == '\r',
        strip_line_breaks_end(s, s.len() as int) > 0 ==> {
            let c = s[strip_line_breaks_end(s, s.len() as int) - 1];
            c != '\n' && c != '\r'
        },
{
    lemma_strip_bounds(s, s.len() as int);
    assert forall|k: int|
        strip_line_breaks_end(s, s.len() as int) <= k < s.len() implies #[trigger] s[k] == '\n'
        || s[k] == '\r' by {
        assert(is_line_break(s[k]));
    }
}

/// Whitespace is the Unicode `White_Space` set: tab, line feed, vertical tab,
/// form feed, carriage return, space, next line, no-break space, ogham space
/// mark, the spaces U+2000 to U+200A, line and paragraph separators, narrow
/// no-break space, medium mathematical space and ideographic space.
pub proof fn law_whitespace_set(c: char)
    ensures
        is_space(c) == (c == '\t' || c == '\n' || c == '\u{0B}' || c == '\u{0C}' || c == '\r' || c
            == ' ' || c == '\u{85}' || c == '\u{A0}' || c == '\u{1680}' || ('\u{2000}' <= c
            && c <= '\u{200A}') || c == '\u{2028}' || c == '\u{2029}' || c == '\u{202F}' || c
            == '\u{205F}' || c == '\u{3000}'),
{
}

/// ASCII case folding maps `A`-`Z` to `a`-`z` and leaves every other
/// character as it is.
pub proof fn law_ascii_lower(c: char)
    ensures
        'A' <= c <= 'Z' ==> ascii_lower(c) == (c as u32) + 32,
        !('A' <= c <= 'Z') ==> ascii_lower(c) == c as u32,
{
}

} // verus!
