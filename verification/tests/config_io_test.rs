use keyboard_rs::types::{
    normalize_config, validate_config_basic, MacroConfig, MacroEntry, ProfileConfig, FIXED_KEYS,
};

fn fixed(commands_prefix: &str) -> Vec<MacroEntry> {
    FIXED_KEYS
        .iter()
        .map(|k| MacroEntry {
            key: (*k).to_string(),
            command: format!("{}-{}", commands_prefix, k),
        })
        .collect()
}

fn sample_config() -> MacroConfig {
    MacroConfig {
        active_profile: 0,
        profiles: vec![
            ProfileConfig {
                name: "Normal".to_string(),
                press_macros: fixed("p1"),
                hold_macros: fixed("h1"),
            },
            ProfileConfig {
                name: "Anki".to_string(),
                press_macros: fixed("p2"),
                hold_macros: fixed("h2"),
            },
        ],
    }
}

#[test]
fn validate_rejects_empty_profile_name() {
    let mut cfg = sample_config();
    cfg.profiles[0].name = "".to_string();
    assert!(validate_config_basic(&cfg).is_err());
}

#[test]
fn normalize_fills_missing_fixed_keys() {
    let cfg = MacroConfig {
        active_profile: 0,
        profiles: vec![ProfileConfig {
            name: "Only".to_string(),
            press_macros: vec![MacroEntry {
                key: "1".to_string(),
                command: "x".to_string(),
            }],
            hold_macros: vec![],
        }],
    };

    let normalized = normalize_config(&cfg);
    assert_eq!(normalized.profiles[0].press_macros.len(), FIXED_KEYS.len());
    assert_eq!(normalized.profiles[0].hold_macros.len(), FIXED_KEYS.len());
}

#[test]
fn normalizing_a_saved_config_keeps_profiles() {
    // What a save followed by a load does to the configuration: two normalizations.
    let cfg = sample_config();
    let saved = normalize_config(&cfg);
    let loaded = normalize_config(&saved);
    assert_eq!(loaded.profiles.len(), 2);
    assert_eq!(loaded.profiles[0].press_macros.len(), FIXED_KEYS.len());
    assert_eq!(loaded.profiles[0].hold_macros.len(), FIXED_KEYS.len());
    for (a, b) in saved.profiles.iter().zip(loaded.profiles.iter()) {
        assert_eq!(a.name, b.name);
        for (x, y) in a.press_macros.iter().zip(b.press_macros.iter()) {
            assert_eq!(x.key, y.key);
            assert_eq!(x.command, y.command);
        }
    }
    assert_eq!(loaded.profiles[1].press_macros[10].command, "p2-*");
    assert_eq!(loaded.profiles[1].hold_macros[11].command, "h2-#");
}

#[test]
fn validate_error_messages() {
    let empty = MacroConfig { profiles: vec![], active_profile: 0 };
    assert_eq!(
        validate_config_basic(&empty).unwrap_err(),
        "At least one profile is required."
    );
    let mut cfg = sample_config();
    cfg.profiles[1].name = " \t\u{3000}".to_string();
    assert_eq!(
        validate_config_basic(&cfg).unwrap_err(),
        "Profile name cannot be empty."
    );
    assert!(validate_config_basic(&sample_config()).is_ok());
}
