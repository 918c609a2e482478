use keyboard_rs::types::{
    config_file_location, config_from_source, default_config, default_profiles,
    get_active_profile_index, get_profiles, macro_vec_for_type, migrate_legacy_config,
    normalize_config, normalize_macro_entries, resolve_profile_macro, set_active_profile,
    ConfigLocation, ConfigSource, LegacyConfig, LegacyProfile, MacroConfig, MacroEntry,
    MacroLookup, MacroType, ProfileConfig, FIXED_KEYS,
};

fn entry(key: &str, command: &str) -> MacroEntry {
    MacroEntry { key: key.to_string(), command: command.to_string() }
}

fn profile(name: &str, press: Vec<MacroEntry>, hold: Vec<MacroEntry>) -> ProfileConfig {
    ProfileConfig { name: name.to_string(), press_macros: press, hold_macros: hold }
}

fn commands(entries: &[MacroEntry]) -> Vec<String> {
    entries.iter().map(|e| e.command.clone()).collect()
}

fn keys(entries: &[MacroEntry]) -> Vec<String> {
    entries.iter().map(|e| e.key.clone()).collect()
}

#[test]
fn normalized_entries_are_the_fixed_keys_in_order() {
    let entries = vec![
        entry("#", "lock"),
        entry("_default", "fallback"),
        entry("1", "first"),
        entry("x", "unknown key"),
        entry("1", "second"),
    ];
    let n = normalize_macro_entries(&entries);
    assert_eq!(keys(&n), FIXED_KEYS.iter().map(|k| k.to_string()).collect::<Vec<_>>());
    let c = commands(&n);
    assert_eq!(c[1], "second");
    assert_eq!(c[11], "lock");
    assert_eq!(c[0], "");
    assert!(!c.contains(&"fallback".to_string()));
    assert!(!c.contains(&"unknown key".to_string()));
}

#[test]
fn normalize_drops_blank_profiles_and_clamps_selection() {
    let cfg = MacroConfig {
        profiles: vec![
            profile("  ", vec![], vec![]),
            profile("Work", vec![entry("2", "two")], vec![]),
            profile("", vec![], vec![]),
            profile("Play", vec![], vec![entry("*", "star")]),
        ],
        active_profile: 9,
    };
    let n = normalize_config(&cfg);
    assert_eq!(n.profiles.len(), 2);
    assert_eq!(n.profiles[0].name, "Work");
    assert_eq!(n.profiles[1].name, "Play");
    assert_eq!(n.active_profile, 1);
    assert_eq!(n.profiles[0].press_macros[2].command, "two");
    assert_eq!(n.profiles[1].hold_macros[10].command, "star");
}

#[test]
fn normalize_keeps_selection_in_range() {
    let cfg = MacroConfig {
        profiles: vec![profile("A", vec![], vec![]), profile("B", vec![], vec![])],
        active_profile: 1,
    };
    assert_eq!(normalize_config(&cfg).active_profile, 1);
}

#[test]
fn normalize_falls_back_to_defaults() {
    let cfg = MacroConfig { profiles: vec![profile(" ", vec![], vec![])], active_profile: 3 };
    let n = normalize_config(&cfg);
    assert_eq!(n.profiles.len(), 2);
    assert_eq!(n.profiles[0].name, "Normal");
    assert_eq!(n.profiles[1].name, "Anki");
    assert_eq!(n.active_profile, 0);
    assert!(commands(&n.profiles[0].press_macros).iter().all(|c| c.is_empty()));
}

#[test]
fn default_config_has_normal_and_anki() {
    let d = default_config();
    assert_eq!(d.active_profile, 0);
    assert_eq!(d.profiles.len(), 2);
    assert_eq!(d.profiles[1].name, "Anki");
    assert_eq!(d.profiles[1].hold_macros.len(), 12);
    assert_eq!(default_profiles().len(), 2);
}

fn legacy(profiles: Vec<LegacyProfile>) -> LegacyConfig {
    LegacyConfig {
        press_macros: vec![entry("1", "shared press")],
        anki_macros: vec![entry("1", "anki press")],
        hold_macros: vec![entry("2", "shared hold")],
        profiles,
    }
}

fn legacy_profile(name: &str, press_set: &str, press: Vec<MacroEntry>) -> LegacyProfile {
    LegacyProfile {
        name: name.to_string(),
        press_set: press_set.to_string(),
        press_macros: press,
        hold_macros: vec![],
    }
}

#[test]
fn migrate_without_profiles_builds_normal_and_anki() {
    let m = migrate_legacy_config(legacy(vec![]));
    assert_eq!(m.profiles.len(), 2);
    assert_eq!(m.profiles[0].name, "Normal");
    assert_eq!(m.profiles[0].press_macros[1].command, "shared press");
    assert_eq!(m.profiles[1].name, "Anki");
    assert_eq!(m.profiles[1].press_macros[1].command, "anki press");
    assert_eq!(m.profiles[1].hold_macros[2].command, "shared hold");
    assert_eq!(m.active_profile, 0);
}

#[test]
fn migrate_uses_own_macros_and_anki_set_case_insensitively() {
    let m = migrate_legacy_config(legacy(vec![
        legacy_profile("Own", "anki", vec![entry("3", "own")]),
        legacy_profile("Cards", "  AnKi ", vec![]),
        legacy_profile("   ", "anki", vec![]),
        legacy_profile("Plain", "other", vec![]),
    ]));
    assert_eq!(m.profiles.len(), 3);
    assert_eq!(m.profiles[0].press_macros[3].command, "own");
    assert_eq!(m.profiles[0].press_macros[1].command, "");
    assert_eq!(m.profiles[1].press_macros[1].command, "anki press");
    assert_eq!(m.profiles[2].press_macros[1].command, "shared press");
    let again = normalize_config(&m);
    assert_eq!(again.profiles.len(), 3);
    assert_eq!(again.profiles[1].name, "Cards");
}

#[test]
fn migrate_with_only_blank_profiles_gives_defaults() {
    let m = migrate_legacy_config(legacy(vec![legacy_profile(" ", "", vec![])]));
    assert_eq!(m.profiles.len(), 2);
    assert_eq!(m.profiles[0].name, "Normal");
    assert_eq!(m.profiles[0].press_macros[1].command, "");
}

#[test]
fn loading_decides_by_source() {
    assert_eq!(config_from_source(ConfigSource::Missing).profiles.len(), 2);
    let cur = MacroConfig { profiles: vec![profile("X", vec![], vec![])], active_profile: 5 };
    let c = config_from_source(ConfigSource::Current(cur));
    assert_eq!(c.profiles.len(), 1);
    assert_eq!(c.active_profile, 0);
    let l = config_from_source(ConfigSource::Legacy(legacy(vec![])));
    assert_eq!(l.profiles[1].name, "Anki");
}

#[test]
fn selection_queries() {
    let mut cfg = default_config();
    assert_eq!(get_active_profile_index(&cfg), 0);
    set_active_profile(&mut cfg, 7);
    assert_eq!(cfg.active_profile, 1);
    assert_eq!(get_active_profile_index(&cfg), 1);
    set_active_profile(&mut cfg, 0);
    assert_eq!(get_active_profile_index(&cfg), 0);
    let mut empty = MacroConfig { profiles: vec![], active_profile: 4 };
    assert_eq!(get_active_profile_index(&empty), 0);
    assert_eq!(get_profiles(&empty).len(), 2);
    set_active_profile(&mut empty, 3);
    assert_eq!(empty.active_profile, 0);
    assert_eq!(get_profiles(&cfg)[1].name, "Anki");
}

#[test]
fn resolving_macros() {
    let cfg = MacroConfig {
        profiles: vec![
            profile("A", vec![entry("1", "a1"), entry("1", "a1 again")], vec![entry("1", "h")]),
            profile("B", vec![entry("2", "b2")], vec![]),
        ],
        active_profile: 0,
    };
    match resolve_profile_macro(&cfg, 0, MacroType::Press, "1") {
        MacroLookup::Found(c) => assert_eq!(c, "a1 again"),
        _ => panic!("expected a command"),
    }
    match resolve_profile_macro(&cfg, 0, MacroType::Hold, "1") {
        MacroLookup::Found(c) => assert_eq!(c, "h"),
        _ => panic!("expected a command"),
    }
    match resolve_profile_macro(&cfg, 1, MacroType::Press, "1") {
        MacroLookup::Unmapped(name) => assert_eq!(name, "B"),
        _ => panic!("expected unmapped"),
    }
    match resolve_profile_macro(&cfg, 9, MacroType::Press, "1") {
        MacroLookup::Found(c) => assert_eq!(c, "a1 again"),
        _ => panic!("expected the first profile"),
    }
    let empty = MacroConfig { profiles: vec![], active_profile: 0 };
    assert!(matches!(resolve_profile_macro(&empty, 0, MacroType::Press, "1"), MacroLookup::NoProfile));
    assert_eq!(macro_vec_for_type(&cfg.profiles[0], MacroType::Hold).len(), 1);
}

#[test]
fn normalized_config_maps_every_fixed_key_only() {
    let n = normalize_config(&MacroConfig {
        profiles: vec![profile("A", vec![entry("z", "zz"), entry("5", "five")], vec![])],
        active_profile: 0,
    });
    for k in FIXED_KEYS.iter() {
        assert!(matches!(resolve_profile_macro(&n, 0, MacroType::Press, k), MacroLookup::Found(_)));
    }
    assert!(matches!(resolve_profile_macro(&n, 0, MacroType::Press, "z"), MacroLookup::Unmapped(_)));
    match resolve_profile_macro(&n, 0, MacroType::Press, "5") {
        MacroLookup::Found(c) => assert_eq!(c, "five"),
        _ => panic!("expected a command"),
    }
}

#[test]
fn config_location_choice() {
    match config_file_location(Some("/etc/k.json".to_string()), Some("/home/u".to_string())) {
        ConfigLocation::Explicit(p) => assert_eq!(p, "/etc/k.json"),
        _ => panic!(),
    }
    match config_file_location(None, Some("/home/u".to_string())) {
        ConfigLocation::UnderHome(h) => assert_eq!(h, "/home/u"),
        _ => panic!(),
    }
    match config_file_location(None, None) {
        ConfigLocation::UnderHome(h) => assert_eq!(h, "."),
        _ => panic!(),
    }
}
