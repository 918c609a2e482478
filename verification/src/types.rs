//! The macro configuration: its data model, the normalization that fixes every
//! profile to the keypad's twelve keys, the migration of the legacy schema, and
//! the queries that the daemon makes on the configuration it holds.
use vstd::prelude::*;
use vstd::string::*;

use crate::text::{
    eq_ignore_ascii_case, has_visible_char, is_not_blank, trimmed, trimmed_eq_ignore_ascii_case,
};

verus! {

/// The keys of the keypad, in the order in which every profile lists them.
pub const FIXED_KEYS: [&'static str; 12] = ["0", "1", "2", "3", "4", "5", "6", "7", "8", "9", "*", "#"];

/// Number of keys on the keypad.
pub const FIXED_KEY_COUNT: usize = 12;

/// One key of the keypad mapped to a shell command.
#[derive(Clone, Debug)]
pub struct MacroEntry {
    pub key: String,
    pub command: String,
}

/// A named profile with the commands run on a short press and on a hold.
#[derive(Clone, Debug)]
pub struct ProfileConfig {
    pub name: String,
    pub press_macros: Vec<MacroEntry>,
    pub hold_macros: Vec<MacroEntry>,
}

/// The whole configuration: the profiles and the index of the selected one.
#[derive(Clone, Debug)]
pub struct MacroConfig {
    pub profiles: Vec<ProfileConfig>,
    pub active_profile: usize,
}

/// Which list of a profile a serial event selects.
#[derive(Clone, Copy, Debug, PartialEq, Eq)]
pub enum MacroType {
    Press,
    Hold,
}

/// A profile of the legacy schema.
#[derive(Clone, Debug)]
pub struct LegacyProfile {
    pub name: String,
    pub press_set: String,
    pub press_macros: Vec<MacroEntry>,
    pub hold_macros: Vec<MacroEntry>,
}

/// The legacy schema, with macro sets shared between profiles.
#[derive(Clone, Debug)]
pub struct LegacyConfig {
    pub press_macros: Vec<MacroEntry>,
    pub anki_macros: Vec<MacroEntry>,
    pub hold_macros: Vec<MacroEntry>,
    pub profiles: Vec<LegacyProfile>,
}

/// What was found where the configuration file should be.
pub enum ConfigSource {
    /// No file.
    Missing,
    /// A file in the current schema.
    Current(MacroConfig),
    /// A file in the legacy schema.
    Legacy(LegacyConfig),
}

/// Model of an entry.
pub struct EntrySpec {
    pub key: Seq<char>,
    pub command: Seq<char>,
}

/// Model of a profile.
pub struct ProfileSpec {
    pub name: Seq<char>,
    pub press_macros: Seq<EntrySpec>,
    pub hold_macros: Seq<EntrySpec>,
}

/// Model of a configuration.
pub struct ConfigSpec {
    pub profiles: Seq<ProfileSpec>,
    pub active_profile: nat,
}

/// Model of a legacy profile.
pub struct LegacyProfileSpec {
    pub name: Seq<char>,
    pub press_set: Seq<char>,
    pub press_macros: Seq<EntrySpec>,
    pub hold_macros: Seq<EntrySpec>,
}

/// Model of a legacy configuration.
pub struct LegacyConfigSpec {
    pub press_macros: Seq<EntrySpec>,
    pub anki_macros: Seq<EntrySpec>,
    pub hold_macros: Seq<EntrySpec>,
    pub profiles: Seq<LegacyProfileSpec>,
}

pub open spec fn entries_view(v: Seq<MacroEntry>) -> Seq<EntrySpec> {
    v.map_values(|e: MacroEntry| e@)
}

pub open spec fn profiles_view(v: Seq<ProfileConfig>) -> Seq<ProfileSpec> {
    v.map_values(|p: ProfileConfig| p@)
}

pub open spec fn legacy_profiles_view(v: Seq<LegacyProfile>) -> Seq<LegacyProfileSpec> {
    v.map_values(|p: LegacyProfile| p@)
}

impl View for MacroEntry {
    type V = EntrySpec;

    open spec fn view(&self) -> EntrySpec {
        EntrySpec { key: self.key@, command: self.command@ }
    }
}

impl View for ProfileConfig {
    type V = ProfileSpec;

    open spec fn view(&self) -> ProfileSpec {
        ProfileSpec {
            name: self.name@,
            press_macros: entries_view(self.press_macros@),
            hold_macros: entries_view(self.hold_macros@),
        }
    }
}

impl View for MacroConfig {
    type V = ConfigSpec;

    open spec fn view(&self) -> ConfigSpec {
        ConfigSpec {
            profiles: profiles_view(self.profiles@),
            active_profile: self.active_profile as nat,
        }
    }
}

impl View for LegacyProfile {
    type V = LegacyProfileSpec;

    open spec fn view(&self) -> LegacyProfileSpec {
        LegacyProfileSpec {
            name: self.name@,
            press_set: self.press_set@,
            press_macros: entries_view(self.press_macros@),
            hold_macros: entries_view(self.hold_macros@),
        }
    }
}

impl View for LegacyConfig {
    type V = LegacyConfigSpec;

    open spec fn view(&self) -> LegacyConfigSpec {
        LegacyConfigSpec {
            press_macros: entries_view(self.press_macros@),
            anki_macros: entries_view(self.anki_macros@),
            hold_macros: entries_view(self.hold_macros@),
            profiles: legacy_profiles_view(self.profiles@),
        }
    }
}

// ---------------------------------------------------------------------------
// The rules, stated over the models
// ---------------------------------------------------------------------------

/// The character of the `i`-th key of the keypad.
pub open spec fn fixed_key_char(i: int) -> char {
    if i == 0 {
        '0'
    } else if i == 1 {
        '1'
    } else if i == 2 {
        '2'
    } else if i == 3 {
        '3'
    } else if i == 4 {
        '4'
    } else if i == 5 {
        '5'
    } else if i == 6 {
        '6'
    } else if i == 7 {
        '7'
    } else if i == 8 {
        '8'
    } else if i == 9 {
        '9'
    } else if i == 10 {
        '*'
    } else {
        '#'
    }
}

/// The `i`-th key of the keypad: `0`-`9`, `*`, `#`.
pub open spec fn fixed_key(i: int) -> Seq<char> {
    seq![fixed_key_char(i)]
}

/// Whether `key` is one of the keypad's keys.
pub open spec fn is_fixed_key(key: Seq<char>) -> bool {
    exists|i: int| 0 <= i < 12 && key == #[trigger] fixed_key(i)
}

/// The command of the last entry whose key is `key`, or the empty command.
pub open spec fn last_command_for(entries: Seq<EntrySpec>, key: Seq<char>) -> Seq<char>
    decreases entries.len(),
{
    if entries.len() == 0 {
        Seq::empty()
    } else if entries.last().key == key {
        entries.last().command
    } else {
        last_command_for(entries.drop_last(), key)
    }
}

/// Whether some entry has the key `key`.
pub open spec fn has_key(entries: Seq<EntrySpec>, key: Seq<char>) -> bool {
    exists|i: int| 0 <= i < entries.len() && (#[trigger] entries[i]).key == key
}

/// The twelve keypad keys in order, each with the command that the last entry
/// of `entries` for that key gives (empty where there is none); entries for any
/// other key are dropped.
pub open spec fn normalized_entries(entries: Seq<EntrySpec>) -> Seq<EntrySpec> {
    Seq::new(12, |i: int| EntrySpec { key: fixed_key(i), command: last_command_for(entries, fixed_key(i)) })
}

/// A profile with both macro lists normalized.
pub open spec fn normalized_profile(p: ProfileSpec) -> ProfileSpec {
    ProfileSpec {
        name: p.name,
        press_macros: normalized_entries(p.press_macros),
        hold_macros: normalized_entries(p.hold_macros),
    }
}

/// The profiles whose name has a visible character, normalized, in order.
pub open spec fn named_profiles(ps: Seq<ProfileSpec>) -> Seq<ProfileSpec>
    decreases ps.len(),
{
    if ps.len() == 0 {
        Seq::empty()
    } else if has_visible_char(ps.last().name) {
        named_profiles(ps.drop_last()).push(normalized_profile(ps.last()))
    } else {
        named_profiles(ps.drop_last())
    }
}

/// `active.min(n.saturating_sub(1))`.
pub open spec fn clamp_index(active: int, n: int) -> int {
    if n <= 0 {
        0
    } else if active < n - 1 {
        active
    } else {
        n - 1
    }
}

/// A profile with every key mapped to the empty command.
pub open spec fn empty_profile(name: Seq<char>) -> ProfileSpec {
    ProfileSpec {
        name: name,
        press_macros: normalized_entries(Seq::empty()),
        hold_macros: normalized_entries(Seq::empty()),
    }
}

/// The two profiles of a fresh installation.
pub open spec fn default_profiles_spec() -> Seq<ProfileSpec> {
    seq![empty_profile("Normal"@), empty_profile("Anki"@)]
}

/// The configuration of a fresh installation.
pub open spec fn default_config_spec() -> ConfigSpec {
    ConfigSpec { profiles: default_profiles_spec(), active_profile: 0 }
}

/// Normalization: blank-named profiles dropped, the others' macros fixed to the
/// keypad keys, the selection clamped; the default configuration where no
/// profile is left.
pub open spec fn normalized_config(c: ConfigSpec) -> ConfigSpec {
    let ps = named_profiles(c.profiles);
    if ps.len() == 0 {
        default_config_spec()
    } else {
        ConfigSpec {
            profiles: ps,
            active_profile: clamp_index(c.active_profile as int, ps.len() as int) as nat,
        }
    }
}

/// The profiles that the migration starts from: the legacy file's, or a
/// `Normal` and an `Anki` profile where it has none.
pub open spec fn legacy_base_profiles(l: LegacyConfigSpec) -> Seq<LegacyProfileSpec> {
    if l.profiles.len() == 0 {
        seq![
            LegacyProfileSpec {
                name: "Normal"@,
                press_set: "normal"@,
                press_macros: Seq::empty(),
                hold_macros: Seq::empty(),
            },
            LegacyProfileSpec {
                name: "Anki"@,
                press_set: "anki"@,
                press_macros: Seq::empty(),
                hold_macros: Seq::empty(),
            },
        ]
    } else {
        l.profiles
    }
}

/// The press macros a legacy profile gets: its own, else the shared `anki`
/// set when its `press_set` is `anki` (trimmed, any ASCII case), else the
/// shared press set.
pub open spec fn legacy_press_source(l: LegacyConfigSpec, p: LegacyProfileSpec) -> Seq<EntrySpec> {
    if p.press_macros.len() > 0 {
        p.press_macros
    } else if eq_ignore_ascii_case(trimmed(p.press_set), "anki"@) {
        l.anki_macros
    } else {
        l.press_macros
    }
}

/// The hold macros a legacy profile gets: its own, else the shared hold set.
pub open spec fn legacy_hold_source(l: LegacyConfigSpec, p: LegacyProfileSpec) -> Seq<EntrySpec> {
    if p.hold_macros.len() > 0 {
        p.hold_macros
    } else {
        l.hold_macros
    }
}

pub open spec fn migrated_profile(l: LegacyConfigSpec, p: LegacyProfileSpec) -> ProfileSpec {
    ProfileSpec {
        name: p.name,
        press_macros: normalized_entries(legacy_press_source(l, p)),
        hold_macros: normalized_entries(legacy_hold_source(l, p)),
    }
}

/// The legacy profiles whose name has a visible character, migrated, in order.
pub open spec fn migrated_profiles(l: LegacyConfigSpec, ps: Seq<LegacyProfileSpec>) -> Seq<
    ProfileSpec,
>
    decreases ps.len(),
{
    if ps.len() == 0 {
        Seq::empty()
    } else if has_visible_char(ps.last().name) {
        migrated_profiles(l, ps.drop_last()).push(migrated_profile(l, ps.last()))
    } else {
        migrated_profiles(l, ps.drop_last())
    }
}

/// Migration of the legacy schema; the first profile is selected.
pub open spec fn migrated_config(l: LegacyConfigSpec) -> ConfigSpec {
    let ps = migrated_profiles(l, legacy_base_profiles(l));
    if ps.len() == 0 {
        default_config_spec()
    } else {
        ConfigSpec { profiles: ps, active_profile: 0 }
    }
}

/// The check that the configurator makes before saving.
pub open spec fn passes_basic_validation(c: ConfigSpec) -> bool {
    &&& c.profiles.len() > 0
    &&& forall|i: int| 0 <= i < c.profiles.len() ==> has_visible_char(#[trigger] c.profiles[i].name)
}

/// A macro list in normal form: the twelve keypad keys in order.
pub open spec fn entries_in_normal_form(es: Seq<EntrySpec>) -> bool {
    &&& es.len() == 12
    &&& forall|i: int| 0 <= i < 12 ==> (#[trigger] es[i]).key == fixed_key(i)
}

/// A configuration in normal form: what normalization produces.
pub open spec fn config_in_normal_form(c: ConfigSpec) -> bool {
    &&& passes_basic_validation(c)
    &&& 0 <= c.active_profile < c.profiles.len()
    &&& forall|i: int|
        0 <= i < c.profiles.len() ==> {
            &&& entries_in_normal_form((#[trigger] c.profiles[i]).press_macros)
            &&& entries_in_normal_form(c.profiles[i].hold_macros)
        }
}

/// The index of the profile in use: the stored selection clamped to the
/// profiles, or 0.
pub open spec fn active_index(c: ConfigSpec) -> int {
    clamp_index(c.active_profile as int, c.profiles.len() as int)
}

// ---------------------------------------------------------------------------
// Executable code
// ---------------------------------------------------------------------------

/// The `i`-th keypad key as a string.
pub fn fixed_key_text(i: usize) -> (s: String)
    requires
        i < 12,
    ensures
        s@ == fixed_key(i as int),
{
    let lit: &str = FIXED_KEYS[i];
    proof {
        reveal_strlit("0");
        reveal_strlit("1");
        reveal_strlit("2");
        reveal_strlit("3");
        reveal_strlit("4");
        reveal_strlit("5");
        reveal_strlit("6");
        reveal_strlit("7");
        reveal_strlit("8");
        reveal_strlit("9");
        reveal_strlit("*");
        reveal_strlit("#");
        assert(lit@ =~= fixed_key(i as int));
    }
    String::from_str(lit)
}

fn clone_entry(e: &MacroEntry) -> (r: MacroEntry)
    ensures
        r@ == e@,
{
    MacroEntry { key: e.key.clone(), command: e.command.clone() }
}

/// A copy of a macro list.
pub fn clone_entries(v: &Vec<MacroEntry>) -> (r: Vec<MacroEntry>)
    ensures
        entries_view(r@) == entries_view(v@),
{
    let mut out: Vec<MacroEntry> = Vec::new();
    for i in 0..v.len()
        invariant
            entries_view(out@) == entries_view(v@).take(i as int),
    {
        let ghost before = out@;
        out.push(clone_entry(&v[i]));
        assert(entries_view(out@) =~= entries_view(before).push(v@[i as int]@));
        assert(entries_view(v@).take(i + 1) =~= entries_view(v@).take(i as int).push(v@[i as int]@));
    }
    assert(entries_view(v@).take(v.len() as int) =~= entries_view(v@));
    out
}

fn clone_profile(p: &ProfileConfig) -> (r: ProfileConfig)
    ensures
        r@ == p@,
{
    ProfileConfig {
        name: p.name.clone(),
        press_macros: clone_entries(&p.press_macros),
        hold_macros: clone_entries(&p.hold_macros),
    }
}

/// A copy of a list of profiles.
pub fn clone_profiles(v: &Vec<ProfileConfig>) -> (r: Vec<ProfileConfig>)
    ensures
        profiles_view(r@) == profiles_view(v@),
{
    let mut out: Vec<ProfileConfig> = Vec::new();
    for i in 0..v.len()
        invariant
            profiles_view(out@) == profiles_view(v@).take(i as int),
    {
        let ghost before = out@;
        out.push(clone_profile(&v[i]));
        assert(profiles_view(out@) =~= profiles_view(before).push(v@[i as int]@));
        assert(profiles_view(v@).take(i + 1) =~= profiles_view(v@).take(i as int).push(
            v@[i as int]@,
        ));
    }
    assert(profiles_view(v@).take(v.len() as int) =~= profiles_view(v@));
    out
}

/// A copy of a configuration.
pub fn clone_config(c: &MacroConfig) -> (r: MacroConfig)
    ensures
        r@ == c@,
{
    MacroConfig { profiles: clone_profiles(&c.profiles), active_profile: c.active_profile }
}

/// The command of the last entry of `entries` whose key is `key`, or "".
pub fn last_command(entries: &Vec<MacroEntry>, key: &String) -> (r: String)
    ensures
        r@ == last_command_for(entries_view(entries@), key@),
{
    let ghost ev = entries_view(entries@);
    let mut j: usize = entries.len();
    assert(ev.take(j as int) =~= ev);
    while j > 0
        invariant
            j <= entries@.len(),
            ev == entries_view(entries@),
            last_command_for(ev, key@) == last_command_for(ev.take(j as int), key@),
        decreases j,
    {
        let ghost t = ev.take(j as int);
        assert(t.last() == entries@[j - 1]@);
        assert(t.drop_last() =~= ev.take(j - 1));
        if entries[j - 1].key == *key {
            return entries[j - 1].command.clone();
        }
        j = j - 1;
    }
    String::new()
}

/// Whether some entry of `entries` has the key `key`.
pub fn contains_key(entries: &Vec<MacroEntry>, key: &String) -> (r: bool)
    ensures
        r == has_key(entries_view(entries@), key@),
{
    let ghost ev = entries_view(entries@);
    for j in 0..entries.len()
        invariant
            ev == entries_view(entries@),
            forall|k: int| 0 <= k < j ==> (#[trigger] ev[k]).key != key@,
    {
        if entries[j].key == *key {
            assert(ev[j as int].key == key@);
            return true;
        }
    }
    false
}

/// The twelve keypad keys in order, each with the command of the last entry for
/// it (an entry for any other key, `_default` among them, is dropped).
pub fn normalize_macro_entries(entries: &Vec<MacroEntry>) -> (r: Vec<MacroEntry>)
    ensures
        entries_view(r@) == normalized_entries(entries_view(entries@)),
{
    let ghost target = normalized_entries(entries_view(entries@));
    let mut out: Vec<MacroEntry> = Vec::new();
    for i in 0..FIXED_KEY_COUNT
        invariant
            target == normalized_entries(entries_view(entries@)),
            entries_view(out@) == target.take(i as int),
    {
        let key = fixed_key_text(i);
        let command = last_command(entries, &key);
        let ghost before = out@;
        out.push(MacroEntry { key, command });
        assert(entries_view(out@) =~= entries_view(before).push(target[i as int]));
        assert(target.take(i + 1) =~= target.take(i as int).push(target[i as int]));
    }
    assert(target.take(12) =~= target);
    out
}

/// A profile with both macro lists normalized.
pub fn normalize_profile(profile: &ProfileConfig) -> (r: ProfileConfig)
    ensures
        r@ == normalized_profile(profile@),
{
    ProfileConfig {
        name: profile.name.clone(),
        press_macros: normalize_macro_entries(&profile.press_macros),
        hold_macros: normalize_macro_entries(&profile.hold_macros),
    }
}

/// A profile with every key mapped to the empty command.
fn empty_profile_named(name: &str) -> (r: ProfileConfig)
    ensures
        r@ == empty_profile(name@),
{
    let none: Vec<MacroEntry> = Vec::new();
    assert(entries_view(none@) =~= Seq::<EntrySpec>::empty());
    ProfileConfig {
        name: String::from_str(name),
        press_macros: normalize_macro_entries(&none),
        hold_macros: normalize_macro_entries(&none),
    }
}

/// The two profiles of a fresh installation, `Normal` and `Anki`.
pub fn default_profiles() -> (r: Vec<ProfileConfig>)
    ensures
        profiles_view(r@) == default_profiles_spec(),
{
    let mut out: Vec<ProfileConfig> = Vec::new();
    out.push(empty_profile_named("Normal"));
    out.push(empty_profile_named("Anki"));
    assert(profiles_view(out@) =~= default_profiles_spec());
    out
}

/// The configuration of a fresh installation: the default profiles, the first
/// one selected.
pub fn default_config() -> (r: MacroConfig)
    ensures
        r@ == default_config_spec(),
{
    MacroConfig { profiles: default_profiles(), active_profile: 0 }
}

/// Normalization without the fallback to the default configuration.
fn normalize_config_inner(config: &MacroConfig) -> (r: MacroConfig)
    ensures
        profiles_view(r.profiles@) == named_profiles(config@.profiles),
        r.active_profile == clamp_index(config.active_profile as int, r.profiles@.len() as int),
{
    let ghost pv = config@.profiles;
    let mut out: Vec<ProfileConfig> = Vec::new();
    for i in 0..config.profiles.len()
        invariant
            pv == config@.profiles,
            pv.len() == config.profiles@.len(),
            profiles_view(out@) == named_profiles(pv.take(i as int)),
    {
        let ghost before = out@;
        proof {
            assert(pv.take(i + 1).drop_last() =~= pv.take(i as int));
            assert(pv.take(i + 1).last() == config.profiles@[i as int]@);
        }
        let p = &config.profiles[i];
        if is_not_blank(p.name.as_str()) {
            out.push(normalize_profile(p));
            assert(profiles_view(out@) =~= profiles_view(before).push(
                normalized_profile(config.profiles@[i as int]@),
            ));
        }
    }
    assert(pv.take(pv.len() as int) =~= pv);
    let n = out.len();
    let active = if n == 0 {
        0
    } else if config.active_profile < n - 1 {
        config.active_profile
    } else {
        n - 1
    };
    MacroConfig { profiles: out, active_profile: active }
}

/// Normalization: blank-named profiles are dropped, the others get exactly the
/// twelve keypad keys, the selection is clamped to the profiles; where no profile
/// is left, the default configuration.
pub fn normalize_config(config: &MacroConfig) -> (r: MacroConfig)
    ensures
        r@ == normalized_config(config@),
{
    let normalized = normalize_config_inner(config);
    if normalized.profiles.len() == 0 {
        default_config()
    } else {
        normalized
    }
}

/// `true` where the legacy profile's `press_set` names the shared `anki` set.
fn selects_anki_set(press_set: &String) -> (r: bool)
    ensures
        r == eq_ignore_ascii_case(trimmed(press_set@), "anki"@),
{
    trimmed_eq_ignore_ascii_case(press_set.as_str(), "anki")
}

fn legacy_profile_named(name: &str, press_set: &str) -> (r: LegacyProfile)
    ensures
        r@ == (LegacyProfileSpec {
            name: name@,
            press_set: press_set@,
            press_macros: Seq::empty(),
            hold_macros: Seq::empty(),
        }),
{
    let r = LegacyProfile {
        name: String::from_str(name),
        press_set: String::from_str(press_set),
        press_macros: Vec::new(),
        hold_macros: Vec::new(),
    };
    assert(entries_view(r.press_macros@) =~= Seq::<EntrySpec>::empty());
    assert(entries_view(r.hold_macros@) =~= Seq::<EntrySpec>::empty());
    r
}

/// Migration of a configuration in the legacy schema: each profile with a
/// visible name keeps it and gets its own macros, or else the shared sets (the
/// `anki` press set where its `press_set` says so), normalized; a file without
/// profiles stands for `Normal` and `Anki`; the first profile is selected, and
/// where none is left the default configuration is returned.
pub fn migrate_legacy_config(legacy: LegacyConfig) -> (r: MacroConfig)
    ensures
        r@ == migrated_config(legacy@),
{
    let ghost l = legacy@;
    let LegacyConfig { press_macros, anki_macros, hold_macros, profiles } = legacy;
    let base: Vec<LegacyProfile> = if profiles.len() == 0 {
        let mut b: Vec<LegacyProfile> = Vec::new();
        b.push(legacy_profile_named("Normal", "normal"));
        b.push(legacy_profile_named("Anki", "anki"));
        assert(legacy_profiles_view(b@) =~= legacy_base_profiles(l));
        b
    } else {
        profiles
    };
    let ghost bv = legacy_profiles_view(base@);
    assert(bv == legacy_base_profiles(l));
    let mut out: Vec<ProfileConfig> = Vec::new();
    for i in 0..base.len()
        invariant
            bv == legacy_profiles_view(base@),
            bv.len() == base@.len(),
            l.press_macros == entries_view(press_macros@),
            l.anki_macros == entries_view(anki_macros@),
            l.hold_macros == entries_view(hold_macros@),
            profiles_view(out@) == migrated_profiles(l, bv.take(i as int)),
    {
        let ghost before = out@;
        proof {
            assert(bv.take(i + 1).drop_last() =~= bv.take(i as int));
            assert(bv.take(i + 1).last() == base@[i as int]@);
        }
        let p = &base[i];
        if is_not_blank(p.name.as_str()) {
            let press_source: &Vec<MacroEntry> = if p.press_macros.len() > 0 {
                &p.press_macros
            } else if selects_anki_set(&p.press_set) {
                &anki_macros
            } else {
                &press_macros
            };
            let hold_source: &Vec<MacroEntry> = if p.hold_macros.len() > 0 {
                &p.hold_macros
            } else {
                &hold_macros
            };
            let migrated = ProfileConfig {
                name: p.name.clone(),
                press_macros: normalize_macro_entries(press_source),
                hold_macros: normalize_macro_entries(hold_source),
            };
            assert(migrated@ == migrated_profile(l, base@[i as int]@));
            out.push(migrated);
            assert(profiles_view(out@) =~= profiles_view(before).push(
                migrated_profile(l, base@[i as int]@),
            ));
        }
    }
    assert(bv.take(bv.len() as int) =~= bv);
    if out.len() == 0 {
        default_config()
    } else {
        MacroConfig { profiles: out, active_profile: 0 }
    }
}

/// The configuration that loading yields from what was found on disk: the
/// default configuration for a missing file, a current one normalized, a legacy
/// one migrated.
pub fn config_from_source(source: ConfigSource) -> (r: MacroConfig)
    ensures
        match source {
            ConfigSource::Missing => r@ == default_config_spec(),
            ConfigSource::Current(c) => r@ == normalized_config(c@),
            ConfigSource::Legacy(l) => r@ == migrated_config(l@),
        },
{
    match source {
        ConfigSource::Missing => default_config(),
        ConfigSource::Current(c) => normalize_config(&c),
        ConfigSource::Legacy(l) => migrate_legacy_config(l),
    }
}

/// The check made before a configuration is saved from the configurator: at
/// least one profile, and no profile whose name is blank.
pub fn validate_config_basic(config: &MacroConfig) -> (r: Result<(), String>)
    ensures
        r is Ok <==> passes_basic_validation(config@),
        r is Ok <==> (config.profiles@.len() > 0 && forall|i: int|
            0 <= i < config.profiles@.len() ==> has_visible_char(
                (#[trigger] config.profiles@[i]).name@,
            )),
        r matches Err(e) ==> (if config@.profiles.len() == 0 {
            e@ == "At least one profile is required."@
        } else {
            e@ == "Profile name cannot be empty."@
        }),
{
    if config.profiles.len() == 0 {
        return Err(String::from_str("At least one profile is required."));
    }
    let ghost pv = config@.profiles;
    for i in 0..config.profiles.len()
        invariant
            pv == config@.profiles,
            pv.len() == config.profiles@.len(),
            pv.len() > 0,
            forall|k: int| 0 <= k < i ==> has_visible_char(#[trigger] pv[k].name),
    {
        if !is_not_blank(config.profiles[i].name.as_str()) {
            assert(pv[i as int].name == config.profiles@[i as int].name@);
            return Err(String::from_str("Profile name cannot be empty."));
        }
        assert(pv[i as int].name == config.profiles@[i as int].name@);
    }
    assert forall|i: int| 0 <= i < config.profiles@.len() implies has_visible_char(
        (#[trigger] config.profiles@[i]).name@,
    ) by {
        assert(pv[i].name == config.profiles@[i].name@);
    }
    Ok(())
}

/// The profiles to show: the configuration's, or the default ones where it has
/// none.
pub fn get_profiles(config: &MacroConfig) -> (r: Vec<ProfileConfig>)
    ensures
        profiles_view(r@) == if config@.profiles.len() == 0 {
            default_profiles_spec()
        } else {
            config@.profiles
        },
{
    if config.profiles.len() == 0 {
        default_profiles()
    } else {
        clone_profiles(&config.profiles)
    }
}

/// The index of the profile in use: the selection clamped to the profiles, or 0
/// where there is none.
pub fn get_active_profile_index(config: &MacroConfig) -> (r: usize)
    ensures
        r as int == active_index(config@),
{
    let n = config.profiles.len();
    if n == 0 {
        0
    } else if config.active_profile < n - 1 {
        config.active_profile
    } else {
        n - 1
    }
}

/// Selects a profile: the index is clamped to the last profile (0 where there
/// is none); the profiles are left as they are.
pub fn set_active_profile(config: &mut MacroConfig, index: usize)
    ensures
        final(config)@.profiles == old(config)@.profiles,
        final(config)@.active_profile == clamp_index(index as int, old(config)@.profiles.len() as int),
{
    let n = config.profiles.len();
    let max_index = if n == 0 {
        0
    } else {
        n - 1
    };
    config.active_profile = if index < max_index {
        index
    } else {
        max_index
    };
}

/// The list of a profile that a macro type selects.
pub fn macro_vec_for_type(profile: &ProfileConfig, macro_type: MacroType) -> (r: &Vec<MacroEntry>)
    ensures
        entries_view(r@) == match macro_type {
            MacroType::Press => profile@.press_macros,
            MacroType::Hold => profile@.hold_macros,
        },
{
    match macro_type {
        MacroType::Press => &profile.press_macros,
        MacroType::Hold => &profile.hold_macros,
    }
}

/// What a serial event resolves to in the configuration.
pub enum MacroLookup {
    /// The configuration has no profile.
    NoProfile,
    /// The command mapped to the key.
    Found(String),
    /// The key is not mapped in the profile, whose name is given.
    Unmapped(String),
}

/// The profile that an event for profile `idx` uses: that one, or the first
/// where `idx` is out of range.
pub open spec fn selected_profile(c: ConfigSpec, idx: int) -> Option<ProfileSpec> {
    if 0 <= idx < c.profiles.len() {
        Some(c.profiles[idx])
    } else if c.profiles.len() > 0 {
        Some(c.profiles[0])
    } else {
        None
    }
}

/// The macro list of a profile that a macro type selects.
pub open spec fn macros_of(p: ProfileSpec, macro_type: MacroType) -> Seq<EntrySpec> {
    match macro_type {
        MacroType::Press => p.press_macros,
        MacroType::Hold => p.hold_macros,
    }
}

/// What an event of `macro_type` for `key` in profile `idx` resolves to.
pub open spec fn profile_macro_lookup(
    c: ConfigSpec,
    idx: int,
    macro_type: MacroType,
    key: Seq<char>,
) -> Option<Option<Seq<char>>> {
    match selected_profile(c, idx) {
        None => None,
        Some(p) => if has_key(macros_of(p, macro_type), key) {
            Some(Some(last_command_for(macros_of(p, macro_type), key)))
        } else {
            Some(None)
        },
    }
}

/// Resolves an event: the profile at `profile_index` (the first one where the
/// index is out of range), the list for the event type, and the command of the
/// last entry there for `key`.
pub fn resolve_profile_macro(
    config: &MacroConfig,
    profile_index: usize,
    macro_type: MacroType,
    key: &str,
) -> (r: MacroLookup)
    ensures
        match profile_macro_lookup(config@, profile_index as int, macro_type, key@) {
            None => r is NoProfile,
            Some(None) => r matches MacroLookup::Unmapped(name)
                && name@ == selected_profile(config@, profile_index as int)->0.name,
            Some(Some(command)) => r matches MacroLookup::Found(c) && c@ == command,
        },
{
    let n = config.profiles.len();
    if n == 0 {
        return MacroLookup::NoProfile;
    }
    let idx = if profile_index < n {
        profile_index
    } else {
        0
    };
    let profile = &config.profiles[idx];
    assert(profile@ == config@.profiles[idx as int]);
    let entries = macro_vec_for_type(profile, macro_type);
    let key_text = String::from_str(key);
    if contains_key(entries, &key_text) {
        MacroLookup::Found(last_command(entries, &key_text))
    } else {
        MacroLookup::Unmapped(profile.name.clone())
    }
}

/// Where the configuration file is: a path given explicitly, or a home
/// directory under which it lies at `.config/keyboard-rs/config.json`.
pub enum ConfigLocation {
    Explicit(String),
    UnderHome(String),
}

/// Picks the configuration file: the path that `KEYBOARD_RS_CONFIG_PATH` gives
/// where it is set, else under `HOME`, else under the current directory `.`.
pub fn config_file_location(override_path: Option<String>, home: Option<String>) -> (r:
    ConfigLocation)
    ensures
        match override_path {
            Some(p) => r matches ConfigLocation::Explicit(x) && x@ == p@,
            None => match home {
                Some(h) => r matches ConfigLocation::UnderHome(x) && x@ == h@,
                None => r matches ConfigLocation::UnderHome(x) && x@ == "."@,
            },
        },
{
    match override_path {
        Some(p) => ConfigLocation::Explicit(p),
        None => match home {
            Some(h) => ConfigLocation::UnderHome(h),
            None => ConfigLocation::UnderHome(String::from_str(".")),
        },
    }
}

} // verus!
