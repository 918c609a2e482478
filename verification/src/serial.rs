//! The serial side: which port to open, and what a line from the keypad asks
//! for (`EVENT:KEY`, e.g. `PRESS:1` or `HOLD:#`).
use vstd::prelude::*;
use vstd::string::*;

use crate::types::MacroType;

verus! {

/// A serial port that the system lists.
pub struct PortInfo {
    pub port_name: String,
    pub is_usb: bool,
}

/// What a line read from the keypad asks for.
pub enum SerialCommand {
    /// Run the macro of `macro_type` for `key` in the selected profile.
    Run { macro_type: MacroType, key: String },
    /// The event (upper-cased) is neither `PRESS` nor `HOLD`.
    UnhandledEvent(String),
    /// The line holds no `:`.
    InvalidFormat,
}

/// Index of the first USB port at or after `i`, if any.
pub open spec fn first_usb_from(ports: Seq<PortInfo>, i: int) -> Option<int>
    decreases ports.len() - i,
{
    if i < 0 || i >= ports.len() {
        None
    } else if ports[i].is_usb {
        Some(i)
    } else {
        first_usb_from(ports, i + 1)
    }
}

/// The port to open: none where there is no port, else the first USB port, else
/// the first port.
pub open spec fn chosen_port(ports: Seq<PortInfo>) -> Option<Seq<char>> {
    if ports.len() == 0 {
        None
    } else {
        match first_usb_from(ports, 0) {
            Some(i) => Some(ports[i].port_name@),
            None => Some(ports[0].port_name@),
        }
    }
}

proof fn lemma_first_usb_from(ports: Seq<PortInfo>, i: int)
    requires
        0 <= i <= ports.len(),
    ensures
        match first_usb_from(ports, i) {
            Some(j) => i <= j < ports.len() && ports[j].is_usb && forall|k: int|
                i <= k < j ==> !(#[trigger] ports[k]).is_usb,
            None => forall|k: int| i <= k < ports.len() ==> !(#[trigger] ports[k]).is_usb,
        },
    decreases ports.len() - i,
{
    if i < ports.len() && !ports[i].is_usb {
        lemma_first_usb_from(ports, i + 1);
    }
}

/// The port chosen is a USB port whenever one is listed, and then the first
/// one listed; the first port is chosen only when none is USB; no port is
/// chosen only when none is listed.
pub proof fn law_usb_port_preferred(ports: Seq<PortInfo>)
    ensures
        chosen_port(ports) is None <==> ports.len() == 0,
        (exists|i: int| 0 <= i < ports.len() && (#[trigger] ports[i]).is_usb) ==> exists|j: int|
            #![trigger ports[j]]
            0 <= j < ports.len() && ports[j].is_usb && (forall|k: int|
                0 <= k < j ==> !(#[trigger] ports[k]).is_usb) && chosen_port(ports) == Some(
                ports[j].port_name@,
            ),
        (forall|i: int| 0 <= i < ports.len() ==> !(#[trigger] ports[i]).is_usb) && ports.len()
            > 0 ==> chosen_port(ports) == Some(ports[0].port_name@),
{
    lemma_first_usb_from(ports, 0);
    if exists|i: int| 0 <= i < ports.len() && (#[trigger] ports[i]).is_usb {
        let i = choose|i: int| 0 <= i < ports.len() && (#[trigger] ports[i]).is_usb;
        assert(first_usb_from(ports, 0) is Some);
        let j = first_usb_from(ports, 0)->0;
        assert(ports[j].is_usb);
    }
}

/// Picks the serial port to open: USB ports first, else the first one listed.
pub fn choose_serial_port(ports: &Vec<PortInfo>) -> (r: Option<String>)
    ensures
        match chosen_port(ports@) {
            None => r is None,
            Some(name) => r matches Some(s) && s@ == name,
        },
        r is None <==> ports@.len() == 0,
        (exists|i: int| 0 <= i < ports@.len() && (#[trigger] ports@[i]).is_usb) ==> exists|j: int|
            #![trigger ports@[j]]
            0 <= j < ports@.len() && ports@[j].is_usb && (forall|k: int|
                0 <= k < j ==> !(#[trigger] ports@[k]).is_usb) && (r matches Some(s) && s@
                == ports@[j].port_name@),
        (forall|i: int| 0 <= i < ports@.len() ==> !(#[trigger] ports@[i]).is_usb) && ports@.len()
            > 0 ==> (r matches Some(s) && s@ == ports@[0].port_name@),
{
    proof {
        law_usb_port_preferred(ports@);
    }
    if ports.len() == 0 {
        return None;
    }
    let mut i: usize = 0;
    while i < ports.len()
        invariant
            i <= ports@.len(),
            ports@.len() > 0,
            first_usb_from(ports@, 0) == first_usb_from(ports@, i as int),
        decreases ports@.len() - i,
    {
        if ports[i].is_usb {
            proof {
                lemma_first_usb_from(ports@, 0);
                assert(first_usb_from(ports@, i as int) == Some(i as int));
                assert(ports@[i as int].is_usb);
            }
            return Some(ports[i].port_name.clone());
        }
        i = i + 1;
    }
    Some(ports[0].port_name.clone())
}

/// Index of the first `c` in `s` at or after `i`, if any.
pub open spec fn find_char_from(s: Seq<char>, c: char, i: int) -> Option<int>
    decreases s.len() - i,
{
    if i < 0 || i >= s.len() {
        None
    } else if s[i] == c {
        Some(i)
    } else {
        find_char_from(s, c, i + 1)
    }
}

pub(crate) proof fn lemma_find_char_bounds(s: Seq<char>, c: char, i: int)
    requires
        0 <= i,
    ensures
        find_char_from(s, c, i) matches Some(k) ==> i <= k < s.len() && s[k] == c && forall|m: int|
            i <= m < k ==> s[m] != c,
        find_char_from(s, c, i) is None ==> forall|m: int| i <= m < s.len() ==> s[m] != c,
    decreases s.len() - i,
{
    if i < s.len() && s[i] != c {
        lemma_find_char_bounds(s, c, i + 1);
    }
}

/// Index of the first `c` in `s`, like `str::find`.
pub fn find_char(s: &str, c: char) -> (r: Option<usize>)
    ensures
        r is None <==> find_char_from(s@, c, 0) is None,
        r matches Some(k) ==> find_char_from(s@, c, 0) == Some(k as int),
        r matches Some(k) ==> k < s@.len() && s@[k as int] == c,
{
    proof {
        lemma_find_char_bounds(s@, c, 0);
    }
    let n = s.unicode_len();
    let mut i: usize = 0;
    while i < n
        invariant
            n == s@.len(),
            i <= n,
            find_char_from(s@, c, 0) == find_char_from(s@, c, i as int),
        decreases n - i,
    {
        if s.get_char(i) == c {
            return Some(i);
        }
        i = i + 1;
    }
    None
}

/// `s.split_once(':')`: the text before and after the first `:`.
pub open spec fn split_at_colon(s: Seq<char>) -> Option<(Seq<char>, Seq<char>)> {
    match find_char_from(s, ':', 0) {
        None => None,
        Some(k) => Some((s.subrange(0, k), s.subrange(k + 1, s.len() as int))),
    }
}

/// `str::split_once(':')`.
pub fn split_once_colon(s: &str) -> (r: Option<(String, String)>)
    ensures
        match split_at_colon(s@) {
            None => r is None,
            Some((a, b)) => r matches Some((x, y)) && x@ == a && y@ == b,
        },
{
    match find_char(s, ':') {
        None => None,
        Some(k) => {
            let n = s.unicode_len();
            let before = String::from_str(s.substring_char(0, k));
            let after = String::from_str(s.substring_char(k + 1, n));
            assert(find_char_from(s@, ':', 0) == Some(k as int));
            assert(split_at_colon(s@) == Some((before@, after@)));
            Some((before, after))
        },
    }
}

/// The result of `str::to_uppercase` (Unicode upper-casing).
pub uninterp spec fn unicode_uppercase(s: Seq<char>) -> Seq<char>;

/// Calls `str::to_uppercase`; its result is named, not stated.
#[verifier::external_body]
fn to_uppercase_text(s: &str) -> (r: String)
    ensures
        r@ == unicode_uppercase(s@),
{
    s.to_uppercase()
}

/// What an event, already upper-cased, asks for: `HOLD` and `PRESS` select a
/// macro list, anything else is not handled.
pub open spec fn event_command(event: Seq<char>) -> Option<MacroType> {
    if event == "HOLD"@ {
        Some(MacroType::Hold)
    } else if event == "PRESS"@ {
        Some(MacroType::Press)
    } else {
        None
    }
}

/// Routes an upper-cased event and its key.
pub fn classify_serial_event(event: String, key: String) -> (r: SerialCommand)
    ensures
        match event_command(event@) {
            Some(t) => r matches SerialCommand::Run { macro_type, key: k } && macro_type == t && k@
                == key@,
            None => r matches SerialCommand::UnhandledEvent(e) && e@ == event@,
        },
{
    let hold = String::from_str("HOLD");
    let press = String::from_str("PRESS");
    if event == hold {
        SerialCommand::Run { macro_type: MacroType::Hold, key }
    } else if event == press {
        SerialCommand::Run { macro_type: MacroType::Press, key }
    } else {
        SerialCommand::UnhandledEvent(event)
    }
}

/// Parses a line from the keypad: `EVENT:KEY`, split at the first `:`, with the
/// event compared upper-cased.
pub fn parse_serial_line(line: &str) -> (r: SerialCommand)
    ensures
        match split_at_colon(line@) {
            None => r is InvalidFormat,
            Some((event, key)) => match event_command(unicode_uppercase(event)) {
                Some(t) => r matches SerialCommand::Run { macro_type, key: k } && macro_type == t
                    && k@ == key,
                None => r matches SerialCommand::UnhandledEvent(e) && e@ == unicode_uppercase(
                    event,
                ),
            },
        },
{
    match split_once_colon(line) {
        None => SerialCommand::InvalidFormat,
        Some((event, key)) => {
            let upper = to_uppercase_text(event.as_str());
            classify_serial_event(upper, key)
        },
    }
}

/// Whether `c` is a line break that is stripped from the end of edited text.
pub open spec fn is_line_break(c: char) -> bool {
    c == '\n' || c == '\r'
}

/// End (exclusive) of `s[..j]` once trailing `\n` and `\r` are dropped.
pub open spec fn strip_line_breaks_end(s: Seq<char>, j: int) -> int
    decreases j,
{
    if 0 < j && is_line_break(s[j - 1]) {
        strip_line_breaks_end(s, j - 1)
    } else {
        j
    }
}

pub(crate) proof fn lemma_strip_bounds(s: Seq<char>, j: int)
    requires
        0 <= j <= s.len(),
    ensures
        0 <= strip_line_breaks_end(s, j) <= j,
        forall|k: int| strip_line_breaks_end(s, j) <= k < j ==> is_line_break(#[trigger] s[k]),
        strip_line_breaks_end(s, j) > 0 ==> !is_line_break(s[strip_line_breaks_end(s, j) - 1]),
    decreases j,
{
    if 0 < j && is_line_break(s[j - 1]) {
        lemma_strip_bounds(s, j - 1);
    }
}

fn ends_with_line_break(content: &str, j: usize) -> (r: bool)
    requires
        0 < j <= content@.len(),
    ensures
        r == is_line_break(content@[j - 1]),
{
    let c = content.get_char(j - 1);
    c == '\n' || c == '\r'
}

/// The text without its trailing `\n` and `\r` characters.
pub fn strip_trailing_line_breaks(content: &str) -> (r: String)
    ensures
        r@ == content@.subrange(0, strip_line_breaks_end(content@, content@.len() as int)),
{
    let n = content.unicode_len();
    proof {
        lemma_strip_bounds(content@, n as int);
    }
    let mut j: usize = n;
    while j > 0 && ends_with_line_break(content, j)
        invariant
            n == content@.len(),
            j <= n,
            strip_line_breaks_end(content@, j as int) == strip_line_breaks_end(content@, n as int),
        decreases j,
    {
        j = j - 1;
    }
    String::from_str(content.substring_char(0, j))
}

} // verus!
