//! The editing operations of the configurator window and the tray menu, on the
//! configuration that they hold in memory.
use vstd::prelude::*;
use vstd::string::*;

use crate::types::{
    EntrySpec, MacroConfig, MacroEntry, ProfileConfig, ProfileSpec, clamp_index, empty_profile,
    entries_view, fixed_key, fixed_key_text, last_command, last_command_for, normalize_macro_entries,
    profiles_view, set_active_profile,
};

verus! {

/// The character of a decimal digit.
pub open spec fn digit_char(d: int) -> char {
    if d == 0 {
        '0'
    } else if d == 1 {
        '1'
    } else if d == 2 {
        '2'
    } else if d == 3 {
        '3'
    } else if d == 4 {
        '4'
    } else if d == 5 {
        '5'
    } else if d == 6 {
        '6'
    } else if d == 7 {
        '7'
    } else if d == 8 {
        '8'
    } else {
        '9'
    }
}

/// The decimal representation of `n`, as integers display.
pub open spec fn decimal_text(n: nat) -> Seq<char>
    decreases n,
{
    if n < 10 {
        seq![digit_char(n as int)]
    } else {
        decimal_text(n / 10).push(digit_char((n % 10) as int))
    }
}

/// The number that a string of decimal digits denotes, most significant first.
pub open spec fn numeral_value(s: Seq<char>) -> int
    decreases s.len(),
{
    if s.len() == 0 {
        0
    } else {
        numeral_value(s.drop_last()) * 10 + ((s.last() as u32) - 48)
    }
}

/// Each decimal digit is the character `'0' + d`.
pub proof fn law_digit_char_code(d: int)
    requires
        0 <= d < 10,
    ensures
        digit_char(d) as u32 == 48 + d,
{
}

/// `decimal_text(n)` is the usual base-10 numeral of `n`: only the characters
/// `'0'`-`'9'`, denoting `n`, without a leading zero (but `"0"` for zero).
pub proof fn law_decimal_text_is_numeral(n: nat)
    ensures
        forall|i: int|
            0 <= i < decimal_text(n).len() ==> 48 <= (#[trigger] decimal_text(n)[i]) as u32 <= 57,
        numeral_value(decimal_text(n)) == n,
        decimal_text(n).len() > 0,
        n > 0 ==> decimal_text(n)[0] != '0',
        n == 0 ==> decimal_text(n) == seq!['0'],
    decreases n,
{
    if n >= 10 {
        law_decimal_text_is_numeral(n / 10);
        let h = decimal_text(n / 10);
        let t = decimal_text(n);
        law_digit_char_code((n % 10) as int);
        assert(t == h.push(digit_char((n % 10) as int)));
        assert(t.drop_last() =~= h);
        assert forall|i: int| 0 <= i < t.len() implies 48 <= (#[trigger] t[i]) as u32 <= 57 by {
            if i < h.len() {
                assert(t[i] == h[i]);
            }
        }
        assert(n / 10 * 10 + n % 10 == n);
        assert(t.last() == digit_char((n % 10) as int));
        assert(numeral_value(t) == numeral_value(h) * 10 + ((t.last() as u32) - 48));
        assert(numeral_value(t) == n);
        assert(t[0] == h[0]);
    } else {
        law_digit_char_code(n as int);
        let t = decimal_text(n);
        assert(t.drop_last().len() == 0);
        assert(numeral_value(t.drop_last()) == 0);
        assert(t.last() == digit_char(n as int));
        assert(numeral_value(t) == n);
    }
}

fn digit_string(d: usize) -> (s: String)
    requires
        d < 10,
    ensures
        s@ == seq![digit_char(d as int)],
{
    let lit: &str = if d == 0 {
        "0"
    } else if d == 1 {
        "1"
    } else if d == 2 {
        "2"
    } else if d == 3 {
        "3"
    } else if d == 4 {
        "4"
    } else if d == 5 {
        "5"
    } else if d == 6 {
        "6"
    } else if d == 7 {
        "7"
    } else if d == 8 {
        "8"
    } else {
        "9"
    };
    proof {
        reveal_strlit("0");
        reveal_strlit("1");
        reveal_strlit("2");
        reveal_strlit("3");
        reveal_strlit("4");
        reveal_strlit("5");
        reveal_strlit("6");
        reveal_strlit("7");
        reveal_strlit("8");
        reveal_strlit("9");
        assert(lit@ =~= seq![digit_char(d as int)]);
    }
    String::from_str(lit)
}

/// `n` in decimal.
pub fn decimal_string(n: usize) -> (s: String)
    ensures
        s@ == decimal_text(n as nat),
    decreases n,
{
    if n < 10 {
        digit_string(n)
    } else {
        let high = decimal_string(n / 10);
        let low = digit_string(n % 10);
        let r = high.concat(low.as_str());
        assert(r@ =~= decimal_text(n as nat));
        r
    }
}

pub open spec fn strings_view(v: Seq<String>) -> Seq<Seq<char>> {
    v.map_values(|s: String| s@)
}

/// What the editor shows for a macro list: for each keypad key in order, the
/// command of the last entry for it, or an empty field.
pub open spec fn editor_commands(es: Seq<EntrySpec>) -> Seq<Seq<char>> {
    Seq::new(12, |i: int| last_command_for(es, fixed_key(i)))
}

fn commands_for_rows(entries: &Vec<MacroEntry>) -> (r: Vec<String>)
    ensures
        strings_view(r@) == editor_commands(entries_view(entries@)),
{
    let ghost target = editor_commands(entries_view(entries@));
    let mut out: Vec<String> = Vec::new();
    for i in 0..12
        invariant
            target == editor_commands(entries_view(entries@)),
            strings_view(out@) == target.take(i as int),
    {
        let key = fixed_key_text(i);
        let command = last_command(entries, &key);
        let ghost before = out@;
        out.push(command);
        assert(strings_view(out@) =~= strings_view(before).push(target[i as int]));
        assert(target.take(i + 1) =~= target.take(i as int).push(target[i as int]));
    }
    assert(target.take(12) =~= target);
    out
}

/// The press and hold fields for the profile at `selected_idx`, or nothing
/// where there is no such profile.
pub fn load_profile_into_editor(config: &MacroConfig, selected_idx: usize) -> (r: Option<
    (Vec<String>, Vec<String>),
>)
    ensures
        selected_idx < config@.profiles.len() ==> (r matches Some((press, hold)) && strings_view(
            press@,
        ) == editor_commands(config@.profiles[selected_idx as int].press_macros) && strings_view(
            hold@,
        ) == editor_commands(config@.profiles[selected_idx as int].hold_macros)),
        selected_idx >= config@.profiles.len() ==> r is None,
{
    if selected_idx >= config.profiles.len() {
        return None;
    }
    let profile = &config.profiles[selected_idx];
    assert(profile@ == config@.profiles[selected_idx as int]);
    Some((commands_for_rows(&profile.press_macros), commands_for_rows(&profile.hold_macros)))
}

/// Stores the editor's press and hold rows in the profile at `selected_idx`;
/// nothing changes where there is no such profile.
pub fn save_editor_to_profile(
    config: &mut MacroConfig,
    selected_idx: usize,
    press_rows: Vec<MacroEntry>,
    hold_rows: Vec<MacroEntry>,
)
    ensures
        final(config)@.active_profile == old(config)@.active_profile,
        final(config)@.profiles.len() == old(config)@.profiles.len(),
        forall|i: int|
            0 <= i < old(config)@.profiles.len() ==> #[trigger] final(config)@.profiles[i] == if i
                == selected_idx {
                ProfileSpec {
                    name: old(config)@.profiles[i].name,
                    press_macros: entries_view(press_rows@),
                    hold_macros: entries_view(hold_rows@),
                }
            } else {
                old(config)@.profiles[i]
            },
{
    if selected_idx < config.profiles.len() {
        let ghost before = config@.profiles;
        let old_profile = config.profiles.remove(selected_idx);
        let updated = ProfileConfig {
            name: old_profile.name,
            press_macros: press_rows,
            hold_macros: hold_rows,
        };
        config.profiles.insert(selected_idx, updated);
        assert(profiles_view(config.profiles@) =~= before.update(selected_idx as int, updated@));
    }
}

/// Renames the profiles: the `i`-th name goes to the `i`-th profile, for each
/// profile that has a name in the list.
pub fn sync_profile_names(config: &mut MacroConfig, names: Vec<String>)
    ensures
        final(config)@.active_profile == old(config)@.active_profile,
        final(config)@.profiles.len() == old(config)@.profiles.len(),
        forall|i: int|
            0 <= i < old(config)@.profiles.len() ==> #[trigger] final(config)@.profiles[i] == if i
                < names@.len() {
                ProfileSpec { name: names@[i]@, ..old(config)@.profiles[i] }
            } else {
                old(config)@.profiles[i]
            },
{
    let ghost original = config@.profiles;
    let n = config.profiles.len();
    let mut i: usize = 0;
    while i < names.len() && i < n
        invariant
            n == config.profiles@.len(),
            n == original.len(),
            i <= n,
            i <= names@.len(),
            config@.active_profile == old(config)@.active_profile,
            original == old(config)@.profiles,
            forall|j: int|
                0 <= j < n ==> #[trigger] config@.profiles[j] == if j < i {
                    ProfileSpec { name: names@[j]@, ..original[j] }
                } else {
                    original[j]
                },
        decreases n - i,
    {
        let ghost before = config@.profiles;
        let p = config.profiles.remove(i);
        let renamed = ProfileConfig {
            name: names[i].clone(),
            press_macros: p.press_macros,
            hold_macros: p.hold_macros,
        };
        assert(before[i as int] == original[i as int]);
        assert(p@ == before[i as int]);
        assert(renamed@ == ProfileSpec { name: names@[i as int]@, ..original[i as int] });
        config.profiles.insert(i, renamed);
        assert(profiles_view(config.profiles@) =~= before.update(i as int, renamed@));
        i = i + 1;
    }
    assert(i >= names@.len() || i >= n);
    assert forall|j: int| 0 <= j < n implies #[trigger] config@.profiles[j] == if j < names@.len() {
        ProfileSpec { name: names@[j]@, ..original[j] }
    } else {
        original[j]
    } by {
        assert(j < i <==> j < names@.len());
    }
}

/// The configurator's answer when the last profile would be removed.
pub open spec fn last_profile_message() -> Seq<char> {
    "At least one profile is required."@
}

/// Removes the profile at `idx`, unless it is the only one (an error, nothing
/// changes); the selection moves to the last profile where it would fall
/// beyond them, and is stored as the active profile. Returns the selection.
pub fn remove_profile(config: &mut MacroConfig, idx: usize, selected: usize) -> (r: Result<
    usize,
    String,
>)
    ensures
        old(config)@.profiles.len() <= 1 ==> (r matches Err(e) && e@ == last_profile_message()
            && final(config)@ == old(config)@),
        old(config)@.profiles.len() > 1 && idx >= old(config)@.profiles.len() ==> r == Ok::<
            usize,
            String,
        >(selected) && final(config)@ == old(config)@,
        old(config)@.profiles.len() > 1 && idx < old(config)@.profiles.len() ==> {
            let n = old(config)@.profiles.len() - 1;
            let sel = if selected >= n {
                n - 1
            } else {
                selected as int
            };
            &&& r == Ok::<usize, String>(sel as usize)
            &&& final(config)@.profiles == old(config)@.profiles.remove(idx as int)
            &&& final(config)@.active_profile == sel
        },
        old(config)@.profiles.len() >= 1 ==> final(config)@.profiles.len() >= 1,
        old(config)@.profiles.len() >= 1 ==> (final(config)@.active_profile
            < final(config)@.profiles.len() || final(config)@ == old(config)@),
{
    if config.profiles.len() <= 1 {
        return Err(String::from_str("At least one profile is required."));
    }
    if idx >= config.profiles.len() {
        return Ok(selected);
    }
    let ghost before = config@.profiles;
    config.profiles.remove(idx);
    assert(profiles_view(config.profiles@) =~= before.remove(idx as int));
    let len = config.profiles.len();
    let sel = if selected >= len {
        len - 1
    } else {
        selected
    };
    set_active_profile(config, sel);
    Ok(sel)
}

/// The name given to a new profile when there are `count` of them already.
pub open spec fn new_profile_name(count: nat) -> Seq<char> {
    "Profile "@ + decimal_text(count + 1)
}

/// Appends a profile named `Profile <n>` (n the new count) with every key
/// mapped to the empty command, selects it and stores it as the active profile;
/// returns its index.
pub fn add_profile(config: &mut MacroConfig) -> (r: usize)
    requires
        old(config)@.profiles.len() < usize::MAX,
    ensures
        r == old(config)@.profiles.len(),
        final(config)@.profiles == old(config)@.profiles.push(
            empty_profile(new_profile_name(old(config)@.profiles.len())),
        ),
        final(config)@.active_profile == r,
{
    let count = config.profiles.len();
    let name = String::from_str("Profile ").concat(decimal_string(count + 1).as_str());
    let none: Vec<MacroEntry> = Vec::new();
    assert(entries_view(none@) =~= Seq::<EntrySpec>::empty());
    let profile = ProfileConfig {
        name,
        press_macros: normalize_macro_entries(&none),
        hold_macros: normalize_macro_entries(&none),
    };
    let ghost before = config@.profiles;
    config.profiles.push(profile);
    assert(profiles_view(config.profiles@) =~= before.push(profile@));
    set_active_profile(config, count);
    assert(clamp_index(count as int, count + 1) == count);
    count
}

/// The tray's title: the name of the selected profile, or of the first one
/// where the selection is out of range, or `UNKNOWN` where there is none.
pub fn tray_title(profiles: &Vec<ProfileConfig>, index: usize) -> (r: String)
    ensures
        r@ == if index < profiles@.len() {
            profiles@[index as int].name@
        } else if profiles@.len() > 0 {
            profiles@[0].name@
        } else {
            "UNKNOWN"@
        },
{
    if index < profiles.len() {
        profiles[index].name.clone()
    } else if profiles.len() > 0 {
        profiles[0].name.clone()
    } else {
        String::from_str("UNKNOWN")
    }
}

/// The labels of the tray's profile menu, one per profile in order.
pub fn profile_names(profiles: &Vec<ProfileConfig>) -> (r: Vec<String>)
    ensures
        r@.len() == profiles@.len(),
        forall|i: int| 0 <= i < profiles@.len() ==> (#[trigger] r@[i])@ == profiles@[i].name@,
{
    let mut out: Vec<String> = Vec::new();
    for i in 0..profiles.len()
        invariant
            out@.len() == i,
            forall|j: int| 0 <= j < i ==> (#[trigger] out@[j])@ == profiles@[j].name@,
    {
        out.push(profiles[i].name.clone());
    }
    out
}

} // verus!
