//! What holds of the configuration rules as a whole: normalization produces the
//! normal form and leaves it unchanged, so saving and loading again gives back
//! what was saved; a migrated legacy file is already in normal form; in normal
//! form exactly the keypad keys are mapped.
use vstd::prelude::*;

use crate::text::{eq_ignore_ascii_case, has_visible_char, is_space, trimmed};
use crate::types::{
    ConfigSpec, EntrySpec, LegacyConfigSpec, LegacyProfileSpec, ProfileSpec, clamp_index,
    config_in_normal_form, default_config_spec, entries_in_normal_form, fixed_key,
    fixed_key_char, has_key, is_fixed_key, last_command_for, migrated_config, migrated_profile,
    migrated_profiles, named_profiles, normalized_config, normalized_entries, normalized_profile,
    passes_basic_validation, active_index, profile_macro_lookup, selected_profile, macros_of,
    MacroType,
};

verus! {

/// The twelve keypad keys are pairwise different.
pub proof fn lemma_fixed_keys_distinct(i: int, j: int)
    requires
        0 <= i < 12,
        0 <= j < 12,
        i != j,
    ensures
        fixed_key(i) != fixed_key(j),
{
    assert(fixed_key(i)[0] == fixed_key_char(i));
    assert(fixed_key(j)[0] == fixed_key_char(j));
}

/// Without an entry for `key` the command for it is empty.
pub proof fn lemma_last_command_absent(es: Seq<EntrySpec>, key: Seq<char>)
    requires
        !has_key(es, key),
    ensures
        last_command_for(es, key) == Seq::<char>::empty(),
    decreases es.len(),
{
    if es.len() > 0 {
        assert(es.last() == es[es.len() - 1]);
        assert(!has_key(es.drop_last(), key)) by {
            if has_key(es.drop_last(), key) {
                let k = choose|k: int|
                    0 <= k < es.drop_last().len() && (#[trigger] es.drop_last()[k]).key == key;
                assert(es[k].key == key);
            }
        }
        lemma_last_command_absent(es.drop_last(), key);
    }
}

/// With exactly one entry for `key`, the command for it is that entry's.
pub proof fn lemma_last_command_unique(es: Seq<EntrySpec>, key: Seq<char>, idx: int)
    requires
        0 <= idx < es.len(),
        es[idx].key == key,
        forall|j: int| 0 <= j < es.len() && j != idx ==> (#[trigger] es[j]).key != key,
    ensures
        last_command_for(es, key) == es[idx].command,
    decreases es.len(),
{
    if idx < es.len() - 1 {
        assert(es.last() == es[es.len() - 1]);
        let d = es.drop_last();
        assert forall|j: int| 0 <= j < d.len() && j != idx implies (#[trigger] d[j]).key != key by {
            assert(d[j] == es[j]);
        }
        lemma_last_command_unique(d, key, idx);
    }
}

/// In a macro list in normal form, key `i` maps to entry `i`'s command, and
/// only keypad keys are present.
pub proof fn lemma_normal_form_lookup(es: Seq<EntrySpec>)
    requires
        entries_in_normal_form(es),
    ensures
        forall|i: int| 0 <= i < 12 ==> last_command_for(es, fixed_key(i)) == #[trigger] es[i].command,
        forall|key: Seq<char>| #[trigger] has_key(es, key) == is_fixed_key(key),
{
    assert forall|i: int| 0 <= i < 12 implies last_command_for(es, fixed_key(i))
        == #[trigger] es[i].command by {
        assert forall|j: int| 0 <= j < es.len() && j != i implies (#[trigger] es[j]).key
            != fixed_key(i) by {
            lemma_fixed_keys_distinct(j, i);
        }
        lemma_last_command_unique(es, fixed_key(i), i);
    }
    assert forall|key: Seq<char>| #[trigger] has_key(es, key) == is_fixed_key(key) by {
        if has_key(es, key) {
            let k = choose|k: int| 0 <= k < es.len() && (#[trigger] es[k]).key == key;
            assert(key == fixed_key(k));
        }
        if is_fixed_key(key) {
            let k = choose|k: int| 0 <= k < 12 && key == #[trigger] fixed_key(k);
            assert(es[k].key == key);
        }
    }
}

/// Normalizing a macro list in normal form leaves it unchanged.
pub proof fn lemma_normal_entries_fixed(es: Seq<EntrySpec>)
    requires
        entries_in_normal_form(es),
    ensures
        normalized_entries(es) == es,
{
    lemma_normal_form_lookup(es);
    assert forall|i: int| 0 <= i < 12 implies #[trigger] normalized_entries(es)[i] == es[i] by {
        assert(last_command_for(es, fixed_key(i)) == es[i].command);
        assert(es[i].key == fixed_key(i));
    }
    assert(normalized_entries(es) =~= es);
}

/// A normalized macro list is in normal form: the twelve keypad keys in order.
pub proof fn law_normalized_entries_in_normal_form(es: Seq<EntrySpec>)
    ensures
        entries_in_normal_form(normalized_entries(es)),
{
}

/// Normalizing a macro list twice is normalizing it once.
pub proof fn law_normalize_entries_idempotent(es: Seq<EntrySpec>)
    ensures
        normalized_entries(normalized_entries(es)) == normalized_entries(es),
{
    lemma_normal_entries_fixed(normalized_entries(es));
}

/// Normalized macros map exactly the keypad keys, each to the command of the
/// last entry for it in the original list.
pub proof fn law_normalized_entries_lookup(es: Seq<EntrySpec>, key: Seq<char>)
    ensures
        has_key(normalized_entries(es), key) == is_fixed_key(key),
        is_fixed_key(key) ==> last_command_for(normalized_entries(es), key) == last_command_for(
            es,
            key,
        ),
{
    let n = normalized_entries(es);
    lemma_normal_form_lookup(n);
    if is_fixed_key(key) {
        let k = choose|k: int| 0 <= k < 12 && key == #[trigger] fixed_key(k);
        assert(last_command_for(n, fixed_key(k)) == n[k].command);
    }
}

pub open spec fn profile_in_normal_form(p: ProfileSpec) -> bool {
    &&& has_visible_char(p.name)
    &&& entries_in_normal_form(p.press_macros)
    &&& entries_in_normal_form(p.hold_macros)
}

proof fn lemma_named_profiles_normal(ps: Seq<ProfileSpec>)
    ensures
        forall|i: int|
            0 <= i < named_profiles(ps).len() ==> profile_in_normal_form(
                #[trigger] named_profiles(ps)[i],
            ),
    decreases ps.len(),
{
    if ps.len() > 0 {
        let rest = named_profiles(ps.drop_last());
        lemma_named_profiles_normal(ps.drop_last());
        if has_visible_char(ps.last().name) {
            let np = normalized_profile(ps.last());
            assert(profile_in_normal_form(np));
            assert forall|i: int|
                0 <= i < named_profiles(ps).len() implies profile_in_normal_form(
                #[trigger] named_profiles(ps)[i],
            ) by {
                if i < rest.len() {
                    assert(named_profiles(ps)[i] == rest[i]);
                }
            }
        }
    }
}

proof fn lemma_named_profiles_fixed(ps: Seq<ProfileSpec>)
    requires
        forall|i: int| 0 <= i < ps.len() ==> profile_in_normal_form(#[trigger] ps[i]),
    ensures
        named_profiles(ps) == ps,
    decreases ps.len(),
{
    if ps.len() > 0 {
        let d = ps.drop_last();
        assert forall|i: int| 0 <= i < d.len() implies profile_in_normal_form(#[trigger] d[i]) by {
            assert(d[i] == ps[i]);
        }
        lemma_named_profiles_fixed(d);
        let l = ps.last();
        assert(profile_in_normal_form(ps[ps.len() - 1]));
        lemma_normal_entries_fixed(l.press_macros);
        lemma_normal_entries_fixed(l.hold_macros);
        assert(normalized_profile(l) == l);
        assert(d.push(l) =~= ps);
    }
}

/// The configuration of a fresh installation is in normal form.
pub proof fn law_default_config_is_normal()
    ensures
        config_in_normal_form(default_config_spec()),
{
    reveal_strlit("Normal");
    reveal_strlit("Anki");
    let ps = default_config_spec().profiles;
    assert(!is_space(ps[0].name[0]));
    assert(!is_space(ps[1].name[0]));
    assert(has_visible_char(ps[0].name));
    assert(has_visible_char(ps[1].name));
}

proof fn lemma_profiles_normal_implies_config_normal(c: ConfigSpec)
    requires
        c.profiles.len() > 0,
        0 <= c.active_profile < c.profiles.len(),
        forall|i: int| 0 <= i < c.profiles.len() ==> profile_in_normal_form(#[trigger] c.profiles[i]),
    ensures
        config_in_normal_form(c),
{
    assert forall|i: int| 0 <= i < c.profiles.len() implies has_visible_char(
        #[trigger] c.profiles[i].name,
    ) by {
        assert(profile_in_normal_form(c.profiles[i]));
    }
}

/// Normalization always yields a configuration in normal form: at least one
/// profile, no blank name, a selection within the profiles, and every macro
/// list exactly the twelve keypad keys in order.
pub proof fn law_normalized_config_is_normal(c: ConfigSpec)
    ensures
        config_in_normal_form(normalized_config(c)),
{
    let ps = named_profiles(c.profiles);
    if ps.len() == 0 {
        law_default_config_is_normal();
    } else {
        lemma_named_profiles_normal(c.profiles);
        lemma_profiles_normal_implies_config_normal(normalized_config(c));
    }
}

/// Normalization leaves a configuration in normal form unchanged.
pub proof fn law_normal_config_fixed(c: ConfigSpec)
    requires
        config_in_normal_form(c),
    ensures
        normalized_config(c) == c,
{
    assert forall|i: int| 0 <= i < c.profiles.len() implies profile_in_normal_form(
        #[trigger] c.profiles[i],
    ) by {
        assert(has_visible_char(c.profiles[i].name));
    }
    lemma_named_profiles_fixed(c.profiles);
    assert(clamp_index(c.active_profile as int, c.profiles.len() as int) == c.active_profile);
}

/// Normalizing twice is normalizing once; so a configuration that is saved (the
/// save normalizes it) and loaded again (the load normalizes it) comes back as
/// it was saved.
pub proof fn law_normalize_config_idempotent(c: ConfigSpec)
    ensures
        normalized_config(normalized_config(c)) == normalized_config(c),
{
    law_normalized_config_is_normal(c);
    law_normal_config_fixed(normalized_config(c));
}

/// A normalized configuration passes the configurator's validation.
pub proof fn law_normalized_config_valid(c: ConfigSpec)
    ensures
        passes_basic_validation(normalized_config(c)),
{
    law_normalized_config_is_normal(c);
}

proof fn lemma_migrated_profiles_normal(l: LegacyConfigSpec, ps: Seq<LegacyProfileSpec>)
    ensures
        forall|i: int|
            0 <= i < migrated_profiles(l, ps).len() ==> profile_in_normal_form(
                #[trigger] migrated_profiles(l, ps)[i],
            ),
    decreases ps.len(),
{
    if ps.len() > 0 {
        let rest = migrated_profiles(l, ps.drop_last());
        lemma_migrated_profiles_normal(l, ps.drop_last());
        if has_visible_char(ps.last().name) {
            let np = migrated_profile(l, ps.last());
            assert(profile_in_normal_form(np));
            assert forall|i: int|
                0 <= i < migrated_profiles(l, ps).len() implies profile_in_normal_form(
                #[trigger] migrated_profiles(l, ps)[i],
            ) by {
                if i < rest.len() {
                    assert(migrated_profiles(l, ps)[i] == rest[i]);
                }
            }
        }
    }
}

/// A migrated legacy configuration is in normal form, so normalizing it (as a
/// save does) changes nothing.
pub proof fn law_migrated_config_is_normal(l: LegacyConfigSpec)
    ensures
        config_in_normal_form(migrated_config(l)),
        normalized_config(migrated_config(l)) == migrated_config(l),
{
    let ps = migrated_profiles(l, crate::types::legacy_base_profiles(l));
    if ps.len() == 0 {
        law_default_config_is_normal();
    } else {
        lemma_migrated_profiles_normal(l, crate::types::legacy_base_profiles(l));
        lemma_profiles_normal_implies_config_normal(migrated_config(l));
    }
    law_normal_config_fixed(migrated_config(l));
}

/// In a configuration in normal form the stored selection is the profile in
/// use.
pub proof fn law_normal_form_selection_in_use(c: ConfigSpec)
    requires
        config_in_normal_form(c),
    ensures
        active_index(c) == c.active_profile,
{
}

/// After a selection, the profile in use is the one asked for, or the last one
/// where the index is beyond the profiles.
pub proof fn law_selection_in_use(c: ConfigSpec, index: int)
    requires
        c.profiles.len() > 0,
        0 <= index,
    ensures
        active_index(
            ConfigSpec {
                profiles: c.profiles,
                active_profile: clamp_index(index, c.profiles.len() as int) as nat,
            },
        ) == if index < c.profiles.len() {
            index
        } else {
            c.profiles.len() - 1
        },
{
}

/// Once normalized, a configuration maps every keypad key, and no other key,
/// in every profile and for both event types; an event for a profile out of
/// range falls back to the first profile.
pub proof fn law_normalized_lookup_total(
    c: ConfigSpec,
    idx: int,
    macro_type: MacroType,
    key: Seq<char>,
)
    ensures
        profile_macro_lookup(normalized_config(c), idx, macro_type, key) is Some,
        (profile_macro_lookup(normalized_config(c), idx, macro_type, key)->0 is Some)
            == is_fixed_key(key),
{
    let n = normalized_config(c);
    law_normalized_config_is_normal(c);
    let i = if 0 <= idx < n.profiles.len() {
        idx
    } else {
        0
    };
    assert(selected_profile(n, idx) == Some(n.profiles[i]));
    let p = n.profiles[i];
    assert(entries_in_normal_form(p.press_macros));
    assert(entries_in_normal_form(p.hold_macros));
    lemma_normal_form_lookup(macros_of(p, macro_type));
    assert(has_key(macros_of(p, macro_type), key) == is_fixed_key(key));
}

/// Normalized macros never hold an entry for `_default`: the legacy fallback
/// key is dropped.
pub proof fn law_default_key_dropped(es: Seq<EntrySpec>)
    ensures
        !has_key(normalized_entries(es), "_default"@),
{
    reveal_strlit("_default");
    law_normalized_entries_lookup(es, "_default"@);
    if is_fixed_key("_default"@) {
        let k = choose|k: int| 0 <= k < 12 && "_default"@ == #[trigger] fixed_key(k);
        assert(fixed_key(k).len() == 1);
    }
}

/// `cmd` is the command of the last entry of `es` whose key is `key`, or the
/// empty command where no entry has that key.
pub open spec fn is_last_command(es: Seq<EntrySpec>, key: Seq<char>, cmd: Seq<char>) -> bool {
    ||| exists|j: int|
        #![trigger es[j]]
        0 <= j < es.len() && es[j].key == key && es[j].command == cmd && forall|m: int|
            j < m < es.len() ==> (#[trigger] es[m]).key != key
    ||| (forall|j: int| 0 <= j < es.len() ==> (#[trigger] es[j]).key != key) && cmd
        == Seq::<char>::empty()
}

/// The command that normalization gives a key is the last one for it, or empty.
pub proof fn law_last_command_is_last(es: Seq<EntrySpec>, key: Seq<char>)
    ensures
        is_last_command(es, key, last_command_for(es, key)),
    decreases es.len(),
{
    if es.len() > 0 {
        let d = es.drop_last();
        law_last_command_is_last(d, key);
        let n = es.len() - 1;
        assert(es.last() == es[n]);
        if es[n].key != key {
            if exists|j: int|
                #![trigger d[j]]
                0 <= j < d.len() && d[j].key == key && d[j].command == last_command_for(d, key)
                    && forall|m: int| j < m < d.len() ==> (#[trigger] d[m]).key != key {
                let j = choose|j: int|
                    #![trigger d[j]]
                    0 <= j < d.len() && d[j].key == key && d[j].command == last_command_for(d, key)
                        && forall|m: int| j < m < d.len() ==> (#[trigger] d[m]).key != key;
                assert(es[j] == d[j]);
                assert forall|m: int| j < m < es.len() implies (#[trigger] es[m]).key != key by {
                    if m < n {
                        assert(es[m] == d[m]);
                    }
                }
            } else {
                assert forall|j: int| 0 <= j < es.len() implies (#[trigger] es[j]).key != key by {
                    if j < n {
                        assert(es[j] == d[j]);
                    }
                }
            }
        }
    }
}

/// What a migrated profile is, said of its legacy profile `p`: the same name,
/// and for each keypad key in order the last command for it in `p`'s own list
/// where that list is not empty, else in the shared list (the `anki` press list
/// where `p`'s press set is `anki`, trimmed and in any ASCII case).
pub open spec fn migrated_from(l: LegacyConfigSpec, r: ProfileSpec, p: LegacyProfileSpec) -> bool {
    &&& r.name == p.name
    &&& r.press_macros.len() == 12
    &&& r.hold_macros.len() == 12
    &&& forall|k: int|
        0 <= k < 12 ==> {
            &&& (#[trigger] r.press_macros[k]).key == fixed_key(k)
            &&& r.hold_macros[k].key == fixed_key(k)
            &&& is_last_command(
                if p.press_macros.len() > 0 {
                    p.press_macros
                } else if eq_ignore_ascii_case(trimmed(p.press_set), "anki"@) {
                    l.anki_macros
                } else {
                    l.press_macros
                },
                fixed_key(k),
                r.press_macros[k].command,
            )
            &&& is_last_command(
                if p.hold_macros.len() > 0 {
                    p.hold_macros
                } else {
                    l.hold_macros
                },
                fixed_key(k),
                r.hold_macros[k].command,
            )
        }
}

proof fn lemma_migrated_profile_from(l: LegacyConfigSpec, p: LegacyProfileSpec)
    ensures
        migrated_from(l, migrated_profile(l, p), p),
{
    let r = migrated_profile(l, p);
    assert forall|k: int| 0 <= k < 12 implies {
        &&& (#[trigger] r.press_macros[k]).key == fixed_key(k)
        &&& r.hold_macros[k].key == fixed_key(k)
        &&& is_last_command(
            if p.press_macros.len() > 0 {
                p.press_macros
            } else if eq_ignore_ascii_case(trimmed(p.press_set), "anki"@) {
                l.anki_macros
            } else {
                l.press_macros
            },
            fixed_key(k),
            r.press_macros[k].command,
        )
        &&& is_last_command(
            if p.hold_macros.len() > 0 {
                p.hold_macros
            } else {
                l.hold_macros
            },
            fixed_key(k),
            r.hold_macros[k].command,
        )
    } by {
        law_last_command_is_last(crate::types::legacy_press_source(l, p), fixed_key(k));
        law_last_command_is_last(crate::types::legacy_hold_source(l, p), fixed_key(k));
    }
}

proof fn lemma_migrated_profiles_from(l: LegacyConfigSpec, ps: Seq<LegacyProfileSpec>)
    ensures
        forall|i: int|
            0 <= i < migrated_profiles(l, ps).len() ==> exists|j: int|
                #![trigger ps[j]]
                0 <= j < ps.len() && has_visible_char(ps[j].name) && migrated_from(
                    l,
                    #[trigger] migrated_profiles(l, ps)[i],
                    ps[j],
                ),
        (exists|j: int| 0 <= j < ps.len() && has_visible_char((#[trigger] ps[j]).name))
            ==> migrated_profiles(l, ps).len() > 0,
    decreases ps.len(),
{
    if ps.len() > 0 {
        let d = ps.drop_last();
        let n = ps.len() - 1;
        lemma_migrated_profiles_from(l, d);
        let rest = migrated_profiles(l, d);
        let res = migrated_profiles(l, ps);
        assert(ps.last() == ps[n]);
        assert forall|i: int| 0 <= i < res.len() implies exists|j: int|
            #![trigger ps[j]]
            0 <= j < ps.len() && has_visible_char(ps[j].name) && migrated_from(
                l,
                #[trigger] res[i],
                ps[j],
            ) by {
            if i < rest.len() {
                assert(res[i] == rest[i]);
                let j = choose|j: int|
                    #![trigger d[j]]
                    0 <= j < d.len() && has_visible_char(d[j].name) && migrated_from(
                        l,
                        rest[i],
                        d[j],
                    );
                assert(ps[j] == d[j]);
            } else {
                lemma_migrated_profile_from(l, ps[n]);
                assert(res[i] == migrated_profile(l, ps[n]));
            }
        }
        if exists|j: int| 0 <= j < ps.len() && has_visible_char((#[trigger] ps[j]).name) {
            if !has_visible_char(ps[n].name) {
                let j = choose|j: int| 0 <= j < ps.len() && has_visible_char((#[trigger] ps[j]).name);
                assert(j < n);
                assert(d[j] == ps[j]);
            }
        }
    }
}

/// Migration of a legacy file with a named profile: the first profile is
/// selected, and every migrated profile comes from a legacy profile with a
/// visible name, keeping its name and taking each key's command from its own
/// list where that list is not empty, else from the shared one.
pub proof fn law_migration_keeps_own_macros(l: LegacyConfigSpec)
    requires
        exists|j: int| 0 <= j < l.profiles.len() && has_visible_char((#[trigger] l.profiles[j]).name),
    ensures
        migrated_config(l).active_profile == 0,
        migrated_config(l).profiles.len() > 0,
        forall|i: int|
            0 <= i < migrated_config(l).profiles.len() ==> exists|j: int|
                #![trigger l.profiles[j]]
                0 <= j < l.profiles.len() && has_visible_char(l.profiles[j].name) && migrated_from(
                    l,
                    #[trigger] migrated_config(l).profiles[i],
                    l.profiles[j],
                ),
{
    lemma_migrated_profiles_from(l, l.profiles);
    assert(crate::types::legacy_base_profiles(l) == l.profiles);
}

/// Migration of a legacy file without profiles: a `Normal` profile with the
/// shared press and hold lists, and an `Anki` profile with the shared `anki`
/// press list and the shared hold list.
pub proof fn law_migration_without_profiles(l: LegacyConfigSpec)
    requires
        l.profiles.len() == 0,
    ensures
        migrated_config(l).active_profile == 0,
        migrated_config(l).profiles.len() == 2,
        migrated_from(
            l,
            migrated_config(l).profiles[0],
            LegacyProfileSpec {
                name: "Normal"@,
                press_set: "normal"@,
                press_macros: Seq::empty(),
                hold_macros: Seq::empty(),
            },
        ),
        migrated_from(
            l,
            migrated_config(l).profiles[1],
            LegacyProfileSpec {
                name: "Anki"@,
                press_set: "anki"@,
                press_macros: Seq::empty(),
                hold_macros: Seq::empty(),
            },
        ),
{
    reveal_strlit("Normal");
    reveal_strlit("Anki");
    let base = crate::types::legacy_base_profiles(l);
    assert(!is_space(base[0].name[0]));
    assert(!is_space(base[1].name[0]));
    assert(has_visible_char(base[0].name));
    assert(has_visible_char(base[1].name));
    assert(base.drop_last().drop_last().len() == 0);
    assert(base.drop_last().last() == base[0]);
    assert(base.last() == base[1]);
    let d = base.drop_last();
    assert(d.last() == base[0]);
    assert(d.drop_last().len() == 0);
    assert(migrated_profiles(l, d.drop_last()) == Seq::<ProfileSpec>::empty());
    assert(migrated_profiles(l, d) == Seq::<ProfileSpec>::empty().push(
        migrated_profile(l, base[0]),
    ));
    assert(migrated_profiles(l, base) == migrated_profiles(l, d).push(
        migrated_profile(l, base[1]),
    ));
    lemma_migrated_profile_from(l, base[0]);
    lemma_migrated_profile_from(l, base[1]);
}

/// `f` lists, in increasing order, exactly the indices of `ps` whose profile
/// has a visible name.
pub open spec fn lists_named_indices(ps: Seq<ProfileSpec>, f: Seq<int>) -> bool {
    &&& forall|i: int, j: int| 0 <= i < j < f.len() ==> #[trigger] f[i] < #[trigger] f[j]
    &&& forall|i: int|
        0 <= i < f.len() ==> 0 <= #[trigger] f[i] < ps.len() && has_visible_char(ps[f[i]].name)
    &&& forall|j: int|
        0 <= j < ps.len() && has_visible_char(#[trigger] ps[j].name) ==> exists|i: int|
            0 <= i < f.len() && #[trigger] f[i] == j
}

/// `r` is `p` with both lists fixed to the keypad keys, each key taking the
/// last command for it in `p`'s list (empty where there is none).
pub open spec fn normalized_from(r: ProfileSpec, p: ProfileSpec) -> bool {
    &&& r.name == p.name
    &&& r.press_macros.len() == 12
    &&& r.hold_macros.len() == 12
    &&& forall|k: int|
        0 <= k < 12 ==> {
            &&& (#[trigger] r.press_macros[k]).key == fixed_key(k)
            &&& r.hold_macros[k].key == fixed_key(k)
            &&& is_last_command(p.press_macros, fixed_key(k), r.press_macros[k].command)
            &&& is_last_command(p.hold_macros, fixed_key(k), r.hold_macros[k].command)
        }
}

proof fn lemma_normalized_from(p: ProfileSpec)
    ensures
        normalized_from(normalized_profile(p), p),
{
    let r = normalized_profile(p);
    assert forall|k: int| 0 <= k < 12 implies {
        &&& (#[trigger] r.press_macros[k]).key == fixed_key(k)
        &&& r.hold_macros[k].key == fixed_key(k)
        &&& is_last_command(p.press_macros, fixed_key(k), r.press_macros[k].command)
        &&& is_last_command(p.hold_macros, fixed_key(k), r.hold_macros[k].command)
    } by {
        law_last_command_is_last(p.press_macros, fixed_key(k));
        law_last_command_is_last(p.hold_macros, fixed_key(k));
    }
}

proof fn lemma_named_profiles_map(ps: Seq<ProfileSpec>) -> (f: Seq<int>)
    ensures
        lists_named_indices(ps, f),
        named_profiles(ps).len() == f.len(),
        forall|i: int| 0 <= i < f.len() ==> normalized_from(#[trigger] named_profiles(ps)[i], ps[f[i]]),
    decreases ps.len(),
{
    if ps.len() == 0 {
        Seq::empty()
    } else {
        let d = ps.drop_last();
        let n = ps.len() - 1;
        let g = lemma_named_profiles_map(d);
        let rest = named_profiles(d);
        assert(ps.last() == ps[n]);
        assert forall|j: int| 0 <= j < n implies #[trigger] d[j] == ps[j] by {}
        if has_visible_char(ps[n].name) {
            let f = g.push(n);
            lemma_normalized_from(ps[n]);
            assert forall|i: int| 0 <= i < f.len() implies normalized_from(
                #[trigger] named_profiles(ps)[i],
                ps[f[i]],
            ) by {
                if i < g.len() {
                    assert(named_profiles(ps)[i] == rest[i]);
                    assert(f[i] == g[i]);
                    assert(ps[g[i]] == d[g[i]]);
                }
            }
            assert forall|j: int|
                0 <= j < ps.len() && has_visible_char(#[trigger] ps[j].name) implies exists|i: int|
                0 <= i < f.len() && #[trigger] f[i] == j by {
                if j < n {
                    assert(has_visible_char(d[j].name));
                    let i = choose|i: int| 0 <= i < g.len() && #[trigger] g[i] == j;
                    assert(f[i] == j);
                } else {
                    assert(f[g.len() as int] == j);
                }
            }
            assert forall|i: int, j: int| 0 <= i < j < f.len() implies #[trigger] f[i]
                < #[trigger] f[j] by {
                if j < g.len() {
                    assert(f[i] == g[i] && f[j] == g[j]);
                } else {
                    assert(f[i] == g[i]);
                }
            }
            assert forall|i: int| 0 <= i < f.len() implies 0 <= #[trigger] f[i] < ps.len()
                && has_visible_char(ps[f[i]].name) by {
                if i < g.len() {
                    assert(f[i] == g[i]);
                    assert(ps[g[i]] == d[g[i]]);
                }
            }
            f
        } else {
            assert forall|i: int| 0 <= i < g.len() implies normalized_from(
                #[trigger] named_profiles(ps)[i],
                ps[g[i]],
            ) by {
                assert(ps[g[i]] == d[g[i]]);
            }
            assert forall|j: int|
                0 <= j < ps.len() && has_visible_char(#[trigger] ps[j].name) implies exists|i: int|
                0 <= i < g.len() && #[trigger] g[i] == j by {
                assert(j < n);
                assert(has_visible_char(d[j].name));
            }
            assert forall|i: int| 0 <= i < g.len() implies 0 <= #[trigger] g[i] < ps.len()
                && has_visible_char(ps[g[i]].name) by {
                assert(ps[g[i]] == d[g[i]]);
            }
            g
        }
    }
}

/// `f` lists, in increasing order, exactly the indices of `ps` whose legacy
/// profile has a visible name.
pub open spec fn lists_named_legacy_indices(ps: Seq<LegacyProfileSpec>, f: Seq<int>) -> bool {
    &&& forall|i: int, j: int| 0 <= i < j < f.len() ==> #[trigger] f[i] < #[trigger] f[j]
    &&& forall|i: int|
        0 <= i < f.len() ==> 0 <= #[trigger] f[i] < ps.len() && has_visible_char(ps[f[i]].name)
    &&& forall|j: int|
        0 <= j < ps.len() && has_visible_char(#[trigger] ps[j].name) ==> exists|i: int|
            0 <= i < f.len() && #[trigger] f[i] == j
}

proof fn lemma_migrated_profiles_map(l: LegacyConfigSpec, ps: Seq<LegacyProfileSpec>) -> (f: Seq<int>)
    ensures
        lists_named_legacy_indices(ps, f),
        migrated_profiles(l, ps).len() == f.len(),
        forall|i: int| 0 <= i < f.len() ==> migrated_from(l, #[trigger] migrated_profiles(l, ps)[i], ps[f[i]]),
    decreases ps.len(),
{
    if ps.len() == 0 {
        Seq::empty()
    } else {
        let d = ps.drop_last();
        let n = ps.len() - 1;
        let g = lemma_migrated_profiles_map(l, d);
        let rest = migrated_profiles(l, d);
        assert(ps.last() == ps[n]);
        assert forall|j: int| 0 <= j < n implies #[trigger] d[j] == ps[j] by {}
        if has_visible_char(ps[n].name) {
            let f = g.push(n);
            lemma_migrated_profile_from(l, ps[n]);
            assert forall|i: int| 0 <= i < f.len() implies migrated_from(l, 
                #[trigger] migrated_profiles(l, ps)[i],
                ps[f[i]],
            ) by {
                if i < g.len() {
                    assert(migrated_profiles(l, ps)[i] == rest[i]);
                    assert(f[i] == g[i]);
                    assert(ps[g[i]] == d[g[i]]);
                }
            }
            assert forall|j: int|
                0 <= j < ps.len() && has_visible_char(#[trigger] ps[j].name) implies exists|i: int|
                0 <= i < f.len() && #[trigger] f[i] == j by {
                if j < n {
                    assert(has_visible_char(d[j].name));
                    let i = choose|i: int| 0 <= i < g.len() && #[trigger] g[i] == j;
                    assert(f[i] == j);
                } else {
                    assert(f[g.len() as int] == j);
                }
            }
            assert forall|i: int, j: int| 0 <= i < j < f.len() implies #[trigger] f[i]
                < #[trigger] f[j] by {
                if j < g.len() {
                    assert(f[i] == g[i] && f[j] == g[j]);
                } else {
                    assert(f[i] == g[i]);
                }
            }
            assert forall|i: int| 0 <= i < f.len() implies 0 <= #[trigger] f[i] < ps.len()
                && has_visible_char(ps[f[i]].name) by {
                if i < g.len() {
                    assert(f[i] == g[i]);
                    assert(ps[g[i]] == d[g[i]]);
                }
            }
            f
        } else {
            assert forall|i: int| 0 <= i < g.len() implies migrated_from(l, 
                #[trigger] migrated_profiles(l, ps)[i],
                ps[g[i]],
            ) by {
                assert(ps[g[i]] == d[g[i]]);
            }
            assert forall|j: int|
                0 <= j < ps.len() && has_visible_char(#[trigger] ps[j].name) implies exists|i: int|
                0 <= i < g.len() && #[trigger] g[i] == j by {
                assert(j < n);
                assert(has_visible_char(d[j].name));
            }
            assert forall|i: int| 0 <= i < g.len() implies 0 <= #[trigger] g[i] < ps.len()
                && has_visible_char(ps[g[i]].name) by {
                assert(ps[g[i]] == d[g[i]]);
            }
            g
        }
    }
}

/// Migration keeps exactly the legacy profiles with a visible name, in their
/// order, each migrated from its own legacy profile (see `migrated_from`); the
/// first is selected; a file whose profiles all have blank names gives the
/// default configuration.
pub proof fn law_migration_keeps_named_profiles(l: LegacyConfigSpec)
    requires
        l.profiles.len() > 0,
    ensures
        exists|f: Seq<int>|
            {
                &&& lists_named_legacy_indices(l.profiles, f)
                &&& f.len() == 0 ==> migrated_config(l) == default_config_spec()
                &&& f.len() > 0 ==> {
                    &&& migrated_config(l).profiles.len() == f.len()
                    &&& migrated_config(l).active_profile == 0
                    &&& forall|i: int|
                        0 <= i < f.len() ==> migrated_from(
                            l,
                            #[trigger] migrated_config(l).profiles[i],
                            l.profiles[f[i]],
                        )
                }
            },
{
    let f = lemma_migrated_profiles_map(l, l.profiles);
    assert(crate::types::legacy_base_profiles(l) == l.profiles);
    assert(lists_named_legacy_indices(l.profiles, f));
}

/// Normalization keeps exactly the profiles with a visible name, in their
/// order, each with its name and, for each keypad key, the last command for it
/// in its own lists; the selection stays where it is when that profile is kept
/// at that position, else it moves to the last profile; where no profile has a
/// visible name, the default configuration is the result.
pub proof fn law_normalize_keeps_named_profiles(c: ConfigSpec)
    ensures
        exists|f: Seq<int>|
            {
                &&& lists_named_indices(c.profiles, f)
                &&& f.len() == 0 ==> normalized_config(c) == default_config_spec()
                &&& f.len() > 0 ==> {
                    &&& normalized_config(c).profiles.len() == f.len()
                    &&& normalized_config(c).active_profile == if c.active_profile < f.len() {
                        c.active_profile as int
                    } else {
                        f.len() - 1
                    }
                    &&& forall|i: int|
                        0 <= i < f.len() ==> normalized_from(
                            #[trigger] normalized_config(c).profiles[i],
                            c.profiles[f[i]],
                        )
                }
            },
{
    let f = lemma_named_profiles_map(c.profiles);
    assert(lists_named_indices(c.profiles, f));
}

/// The keypad's keys, in order, are the digits `0`-`9`, then `*` and `#`.
pub proof fn law_fixed_keys_are_keypad(i: int)
    requires
        0 <= i < 12,
    ensures
        fixed_key(i).len() == 1,
        i < 10 ==> fixed_key(i)[0] as u32 == 48 + i,
        i == 10 ==> fixed_key(i)[0] == '*',
        i == 11 ==> fixed_key(i)[0] == '#',
{
}

/// The profile an event for profile `idx` uses: that one, or the first one
/// where `idx` is out of range.
pub open spec fn profile_used(c: ConfigSpec, idx: int) -> ProfileSpec {
    if 0 <= idx < c.profiles.len() {
        c.profiles[idx]
    } else {
        c.profiles[0]
    }
}

/// The list that an event type reads: press events the press list, hold
/// events the hold list.
pub open spec fn list_read_by(p: ProfileSpec, macro_type: MacroType) -> Seq<EntrySpec> {
    match macro_type {
        MacroType::Press => p.press_macros,
        MacroType::Hold => p.hold_macros,
    }
}

/// Resolving an event: with no profile there is nothing; otherwise the profile
/// at the index is used (the first one where the index is out of range), and
/// the key resolves to the command of its last entry in the list of the event's
/// type, or is unmapped where that list has no entry for it.
pub proof fn law_lookup_uses_selected_list(
    c: ConfigSpec,
    idx: int,
    macro_type: MacroType,
    key: Seq<char>,
)
    ensures
        (profile_macro_lookup(c, idx, macro_type, key) is None) == (c.profiles.len() == 0),
        c.profiles.len() > 0 ==> ((profile_macro_lookup(c, idx, macro_type, key) == Some(
            None::<Seq<char>>,
        )) == (forall|j: int|
            0 <= j < list_read_by(profile_used(c, idx), macro_type).len() ==> (#[trigger] list_read_by(
                profile_used(c, idx),
                macro_type,
            )[j]).key != key)),
        forall|cmd: Seq<char>|
            profile_macro_lookup(c, idx, macro_type, key) == Some(Some(cmd)) ==> #[trigger] is_last_command(
                list_read_by(profile_used(c, idx), macro_type),
                key,
                cmd,
            ),
{
    if c.profiles.len() > 0 {
        let p = profile_used(c, idx);
        assert(selected_profile(c, idx) == Some(p));
        let es = macros_of(p, macro_type);
        assert(es == list_read_by(p, macro_type));
        law_last_command_is_last(es, key);
        if !has_key(es, key) {
            assert forall|j: int| 0 <= j < es.len() implies (#[trigger] es[j]).key != key by {}
        } else {
            let j = choose|j: int| 0 <= j < es.len() && (#[trigger] es[j]).key == key;
            assert(es[j].key == key);
        }
    }
}

/// The configurator shows, for each keypad key in order, the command of the
/// last entry for that key (an empty field where there is none).
pub proof fn law_editor_shows_last_commands(es: Seq<EntrySpec>)
    ensures
        crate::configurator::editor_commands(es).len() == 12,
        forall|i: int|
            0 <= i < 12 ==> is_last_command(
                es,
                fixed_key(i),
                #[trigger] crate::configurator::editor_commands(es)[i],
            ),
{
    assert forall|i: int| 0 <= i < 12 implies is_last_command(
        es,
        fixed_key(i),
        #[trigger] crate::configurator::editor_commands(es)[i],
    ) by {
        law_last_command_is_last(es, fixed_key(i));
    }
}

/// A fresh profile maps every keypad key, in order, to the empty command.
pub proof fn law_empty_profile_is_empty(name: Seq<char>)
    ensures
        crate::types::empty_profile(name).name == name,
        crate::types::empty_profile(name).press_macros.len() == 12,
        crate::types::empty_profile(name).hold_macros.len() == 12,
        forall|i: int|
            0 <= i < 12 ==> {
                &&& (#[trigger] crate::types::empty_profile(name).press_macros[i]).key == fixed_key(i)
                &&& crate::types::empty_profile(name).press_macros[i].command == Seq::<char>::empty()
                &&& crate::types::empty_profile(name).hold_macros[i].key == fixed_key(i)
                &&& crate::types::empty_profile(name).hold_macros[i].command == Seq::<char>::empty()
            },
{
    assert forall|i: int| 0 <= i < 12 implies {
        &&& (#[trigger] crate::types::empty_profile(name).press_macros[i]).key == fixed_key(i)
        &&& crate::types::empty_profile(name).press_macros[i].command == Seq::<char>::empty()
        &&& crate::types::empty_profile(name).hold_macros[i].key == fixed_key(i)
        &&& crate::types::empty_profile(name).hold_macros[i].command == Seq::<char>::empty()
    } by {
        law_last_command_is_last(Seq::empty(), fixed_key(i));
    }
}

/// A fresh installation has two empty profiles, `Normal` (selected) and then
/// `Anki`.
pub proof fn law_default_config_contents()
    ensures
        default_config_spec().profiles.len() == 2,
        default_config_spec().active_profile == 0,
        default_config_spec().profiles[0] == crate::types::empty_profile("Normal"@),
        default_config_spec().profiles[1] == crate::types::empty_profile("Anki"@),
{
}

} // verus!
