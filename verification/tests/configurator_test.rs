use keyboard_rs::configurator::{
    add_profile, decimal_string, load_profile_into_editor, profile_names, remove_profile,
    save_editor_to_profile, sync_profile_names, tray_title,
};
use keyboard_rs::types::{default_config, MacroConfig, MacroEntry, FIXED_KEYS};

#[test]
fn adding_profiles_names_and_selects_them() {
    let mut cfg = default_config();
    let idx = add_profile(&mut cfg);
    assert_eq!(idx, 2);
    assert_eq!(cfg.profiles[2].name, "Profile 3");
    assert_eq!(cfg.active_profile, 2);
    assert_eq!(cfg.profiles[2].press_macros.len(), FIXED_KEYS.len());
    assert!(cfg.profiles[2].hold_macros.iter().all(|e| e.command.is_empty()));
}

#[test]
fn removing_profiles() {
    let mut cfg = default_config();
    add_profile(&mut cfg);
    assert_eq!(remove_profile(&mut cfg, 2, 2), Ok(1));
    assert_eq!(cfg.profiles.len(), 2);
    assert_eq!(cfg.active_profile, 1);
    assert_eq!(remove_profile(&mut cfg, 0, 0), Ok(0));
    assert_eq!(cfg.profiles[0].name, "Anki");
    assert_eq!(
        remove_profile(&mut cfg, 0, 0),
        Err("At least one profile is required.".to_string())
    );
    assert_eq!(cfg.profiles.len(), 1);
    let mut two = default_config();
    assert_eq!(remove_profile(&mut two, 5, 1), Ok(1));
    assert_eq!(two.profiles.len(), 2);
}

#[test]
fn editor_rows_round_trip() {
    let mut cfg = default_config();
    let rows: Vec<MacroEntry> = FIXED_KEYS
        .iter()
        .map(|k| MacroEntry { key: k.to_string(), command: format!("run {}", k) })
        .collect();
    save_editor_to_profile(&mut cfg, 1, rows.clone(), vec![]);
    let (press, hold) = load_profile_into_editor(&cfg, 1).unwrap();
    assert_eq!(press[0], "run 0");
    assert_eq!(press[11], "run #");
    assert!(hold.iter().all(|c| c.is_empty()));
    assert_eq!(hold.len(), 12);
    assert!(load_profile_into_editor(&cfg, 2).is_none());
    save_editor_to_profile(&mut cfg, 7, rows, vec![]);
    assert_eq!(cfg.profiles.len(), 2);
}

#[test]
fn renaming_from_the_editor() {
    let mut cfg = default_config();
    sync_profile_names(&mut cfg, vec!["Work".to_string()]);
    assert_eq!(cfg.profiles[0].name, "Work");
    assert_eq!(cfg.profiles[1].name, "Anki");
    sync_profile_names(&mut cfg, vec!["A".to_string(), "B".to_string(), "C".to_string()]);
    assert_eq!(cfg.profiles.len(), 2);
    assert_eq!(cfg.profiles[1].name, "B");
}

#[test]
fn tray_labels() {
    let cfg = default_config();
    assert_eq!(tray_title(&cfg.profiles, 1), "Anki");
    assert_eq!(tray_title(&cfg.profiles, 8), "Normal");
    assert_eq!(tray_title(&vec![], 0), "UNKNOWN");
    assert_eq!(profile_names(&cfg.profiles), vec!["Normal".to_string(), "Anki".to_string()]);
    let empty = MacroConfig { profiles: vec![], active_profile: 0 };
    assert!(profile_names(&empty.profiles).is_empty());
}

#[test]
fn decimal_numbers() {
    assert_eq!(decimal_string(0), "0");
    assert_eq!(decimal_string(7), "7");
    assert_eq!(decimal_string(10), "10");
    assert_eq!(decimal_string(1203), "1203");
}
