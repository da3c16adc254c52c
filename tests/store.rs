use editor_store::state::{AppSettings, EditorDraft};
use editor_store::store::{SettingsStore, StoreKey, Stored};

fn settings(theme: &str, preview: bool) -> AppSettings {
    AppSettings { theme: theme.to_string(), preview }
}

fn draft(markdown: &str, selections: &[&str]) -> EditorDraft {
    EditorDraft {
        markdown: markdown.to_string(),
        selections: selections.iter().map(|s| s.to_string()).collect(),
    }
}

#[test]
fn boot_then_set_then_clear_settings() {
    let mut store = SettingsStore::new();
    store.ensure_defaults();
    assert_eq!(store.get_settings(), Some(settings("light", true)));
    store.set_settings(settings("dark", false));
    assert_eq!(store.get_settings(), Some(settings("dark", false)));
    store.clear_settings();
    assert_eq!(store.get_settings(), None);
}

#[test]
fn first_launch_writes_both_defaults() {
    let mut store = SettingsStore::new();
    assert_eq!(store.get_settings(), None);
    assert_eq!(store.get_draft(), None);
    let written = store.ensure_defaults();
    assert_eq!(written, vec![StoreKey::Settings, StoreKey::Draft]);
    assert_eq!(store.get_settings(), Some(settings("light", true)));
    assert_eq!(store.get_draft(), Some(draft("", &[])));
}

#[test]
fn defaults_keep_stored_records() {
    let mut store = SettingsStore::from_records(Stored::Present(settings("dark", false)), Stored::Absent);
    let written = store.ensure_defaults();
    assert_eq!(written, vec![StoreKey::Draft]);
    assert_eq!(store.get_settings(), Some(settings("dark", false)));
    assert_eq!(store.get_draft(), Some(draft("", &[])));

    let mut store = SettingsStore::from_records(Stored::Absent, Stored::Present(draft("# Notes", &["a"])));
    let written = store.ensure_defaults();
    assert_eq!(written, vec![StoreKey::Settings]);
    assert_eq!(store.get_draft(), Some(draft("# Notes", &["a"])));
}

#[test]
fn defaults_a_second_time_write_nothing() {
    let mut store = SettingsStore::new();
    store.ensure_defaults();
    store.set_settings(settings("dark", true));
    let written = store.ensure_defaults();
    assert!(written.is_empty());
    assert_eq!(store.get_settings(), Some(settings("dark", true)));
    assert_eq!(store.get_draft(), Some(draft("", &[])));
}

#[test]
fn settings_round_trip() {
    for s in [settings("light", true), settings("light", false), settings("dark", true), settings("dark", false)] {
        let mut store = SettingsStore::new();
        store.set_settings(s.clone());
        assert_eq!(store.get_settings(), Some(s));
        assert_eq!(store.get_draft(), None);
    }
}

#[test]
fn draft_round_trip() {
    let d = draft("# Title\n\nSome *text*.", &["0:5", "", "12:20"]);
    let mut store = SettingsStore::new();
    store.ensure_defaults();
    store.set_draft(d.clone());
    assert_eq!(store.get_draft(), Some(d));
    assert_eq!(store.get_settings(), Some(settings("light", true)));
}

#[test]
fn draft_overwritten_wholesale() {
    let mut store = SettingsStore::new();
    store.set_draft(draft("first", &["a", "b", "c"]));
    store.set_draft(draft("second", &[]));
    assert_eq!(store.get_draft(), Some(draft("second", &[])));
}

#[test]
fn clear_draft_leaves_settings() {
    let mut store = SettingsStore::new();
    store.ensure_defaults();
    store.clear_draft();
    assert_eq!(store.get_draft(), None);
    assert_eq!(store.get_settings(), Some(settings("light", true)));
    store.clear_draft();
    assert_eq!(store.get_draft(), None);
}

#[test]
fn clear_absent_settings_is_no_error() {
    let mut store = SettingsStore::new();
    store.clear_settings();
    assert_eq!(store.get_settings(), None);
}

#[test]
fn set_settings_twice_same_as_once() {
    let mut once = SettingsStore::new();
    once.ensure_defaults();
    once.set_settings(settings("dark", false));
    let mut twice = SettingsStore::new();
    twice.ensure_defaults();
    twice.set_settings(settings("dark", false));
    twice.set_settings(settings("dark", false));
    assert_eq!(once.get_settings(), twice.get_settings());
    assert_eq!(once.get_draft(), twice.get_draft());
}

#[test]
fn key_names() {
    assert_eq!(StoreKey::Settings.name(), "settings");
    assert_eq!(StoreKey::Draft.name(), "draft");
}

#[test]
fn default_records() {
    assert_eq!(AppSettings::default(), settings("light", true));
    assert_eq!(EditorDraft::default(), draft("", &[]));
}

#[test]
fn duplicate_keeps_value() {
    let d = draft("text", &["x", "y"]);
    assert_eq!(d.duplicate(), d);
    let s = settings("dark", false);
    assert_eq!(s.duplicate(), s);
}

#[test]
fn unreadable_settings_survive_start_up() {
    let mut store = SettingsStore::from_records(Stored::Undecodable, Stored::Absent);
    assert_eq!(store.get_settings(), None);
    let written = store.ensure_defaults();
    assert_eq!(written, vec![StoreKey::Draft]);
    assert_eq!(store.get_settings(), None);
    assert_eq!(store.get_draft(), Some(draft("", &[])));
    assert_eq!(store.ensure_defaults(), Vec::<StoreKey>::new());
    assert_eq!(store.get_settings(), None);
}

#[test]
fn unreadable_draft_survives_start_up() {
    let mut store = SettingsStore::from_records(Stored::Absent, Stored::Undecodable);
    let written = store.ensure_defaults();
    assert_eq!(written, vec![StoreKey::Settings]);
    assert_eq!(store.get_settings(), Some(settings("light", true)));
    assert_eq!(store.get_draft(), None);
}

#[test]
fn unreadable_settings_replaced_by_set_or_cleared() {
    let mut store = SettingsStore::from_records(Stored::Undecodable, Stored::Undecodable);
    assert!(store.ensure_defaults().is_empty());
    store.set_settings(settings("dark", true));
    assert_eq!(store.get_settings(), Some(settings("dark", true)));
    store.clear_draft();
    assert_eq!(store.ensure_defaults(), vec![StoreKey::Draft]);
    assert_eq!(store.get_draft(), Some(draft("", &[])));
}
