use lineage_core::domain::settings::key;
use lineage_core::domain::settings::Settings;

#[test]
fn defaults_to_pulling_the_selection() {
    assert!(Settings::default().auto_pull_foreground_text);
}

#[test]
fn reads_a_stored_value() {
    let entries = vec![(
        key::AUTO_PULL_FOREGROUND_TEXT.to_string(),
        "false".to_string(),
    )];
    assert!(!Settings::from_entries(&entries).auto_pull_foreground_text);
}

#[test]
fn falls_back_to_the_default_for_unusable_values() {
    let entries = vec![(
        key::AUTO_PULL_FOREGROUND_TEXT.to_string(),
        "maybe".to_string(),
    )];
    assert!(Settings::from_entries(&entries).auto_pull_foreground_text);
    assert!(Settings::from_entries(&[]).auto_pull_foreground_text);
}

#[test]
fn round_trips_through_entries() {
    let settings = Settings {
        auto_pull_foreground_text: false,
    };
    let entries: Vec<(String, String)> = settings
        .to_entries()
        .into_iter()
        .map(|(key, value)| (key.to_string(), value))
        .collect();
    assert_eq!(Settings::from_entries(&entries), settings);
}

#[test]
fn values_are_read_around_white_space_and_as_digits() {
    let entries = vec![(key::AUTO_PULL_FOREGROUND_TEXT.to_string(), " 0 ".to_string())];
    assert!(!Settings::from_entries(&entries).auto_pull_foreground_text);
    let entries = vec![(key::AUTO_PULL_FOREGROUND_TEXT.to_string(), "1".to_string())];
    assert!(Settings::from_entries(&entries).auto_pull_foreground_text);
}

#[test]
fn unknown_keys_are_ignored_and_the_last_value_wins() {
    let entries = vec![
        ("other".to_string(), "false".to_string()),
        (key::AUTO_PULL_FOREGROUND_TEXT.to_string(), "false".to_string()),
        (key::AUTO_PULL_FOREGROUND_TEXT.to_string(), "true".to_string()),
    ];
    assert!(Settings::from_entries(&entries).auto_pull_foreground_text);
}
