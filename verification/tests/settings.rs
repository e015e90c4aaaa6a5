use polish_language::api_keys::ApiKeys;
use polish_language::settings::{
    default_notifications_enabled, default_sound_enabled, default_translate_shortcut,
    settings_dir_name, settings_file_name, Settings,
};

fn sorted_entries(keys: &ApiKeys) -> Vec<(String, String)> {
    let mut pairs = keys.entries();
    pairs.sort();
    pairs
}

fn pair(provider: &str, key: &str) -> (String, String) {
    (provider.to_string(), key.to_string())
}

#[test]
fn defaults_of_a_first_run() {
    let s = Settings::default();
    assert_eq!(s.shortcut, "CmdOrCtrl+Alt+P");
    assert_eq!(s.translate_shortcut, "CmdOrCtrl+Alt+T");
    assert!(s.api_keys.entries().is_empty());
    assert_eq!(s.api_key, None);
    assert_eq!(s.model, "gpt-3.5-turbo");
    assert_eq!(s.base_url, "https://api.openai.com/v1");
    assert_eq!(
        s.prompt,
        "Please polish and improve the following text while maintaining its original meaning and tone:"
    );
    assert_eq!(s.provider, "openai");
    assert!(s.sound_enabled);
    assert!(!s.notifications_enabled);
}

#[test]
fn default_values_of_optional_fields() {
    assert!(default_sound_enabled());
    assert!(!default_notifications_enabled());
    assert_eq!(default_translate_shortcut(), "CmdOrCtrl+Alt+T");
}

#[test]
fn record_location_names() {
    assert_eq!(settings_dir_name(), "polish-language");
    assert_eq!(settings_file_name(), "settings.json");
}

#[test]
fn current_key_is_empty_when_unset() {
    let s = Settings::default();
    assert_eq!(s.get_current_api_key(), "");
    assert_eq!(s.api_key_for("openai"), "");
    assert_eq!(s.api_key_for("gemini"), "");
}

#[test]
fn set_then_resolve_returns_the_key() {
    let mut s = Settings::default();
    s.set_api_key("gemini", "x");
    assert_eq!(s.get_current_api_key(), "");
    s.provider = "gemini".to_string();
    assert_eq!(s.get_current_api_key(), "x");
    assert_eq!(s.api_key_for("gemini"), "x");
}

#[test]
fn set_replaces_an_existing_key() {
    let mut s = Settings::default();
    s.set_api_key("openai", "first");
    s.set_api_key("openai", "second");
    assert_eq!(s.get_current_api_key(), "second");
    assert_eq!(sorted_entries(&s.api_keys), vec![pair("openai", "second")]);
}

#[test]
fn set_empty_key_removes_the_entry() {
    let mut s = Settings::default();
    s.set_api_key("openai", "sk-1");
    s.set_api_key("gemini", "g-1");
    s.set_api_key("openai", "");
    assert_eq!(s.get_current_api_key(), "");
    assert!(!s.api_keys.contains("openai"));
    assert!(s.api_keys.contains("gemini"));
    assert_eq!(sorted_entries(&s.api_keys), vec![pair("gemini", "g-1")]);
}

#[test]
fn set_empty_key_for_unknown_provider_changes_nothing() {
    let mut s = Settings::default();
    s.set_api_key("gemini", "g-1");
    s.set_api_key("openai", "");
    assert_eq!(sorted_entries(&s.api_keys), vec![pair("gemini", "g-1")]);
}

#[test]
fn set_touches_only_its_provider() {
    let mut s = Settings::default();
    s.set_api_key("openai", "sk-1");
    s.set_api_key("gemini", "g-1");
    s.set_api_key("other", "o-1");
    s.set_api_key("gemini", "g-2");
    assert_eq!(
        sorted_entries(&s.api_keys),
        vec![pair("gemini", "g-2"), pair("openai", "sk-1"), pair("other", "o-1")]
    );
    assert_eq!(s.model, "gpt-3.5-turbo");
    assert_eq!(s.provider, "openai");
}

#[test]
fn table_never_holds_an_empty_key() {
    let mut keys = ApiKeys::new();
    keys.set("a", "");
    keys.set("b", "k");
    keys.set("b", "");
    keys.set("c", "v");
    for (_, key) in keys.entries() {
        assert!(!key.is_empty());
    }
    assert_eq!(keys.get("a"), None);
    assert_eq!(keys.get("b"), None);
    assert_eq!(keys.get("c"), Some(&"v".to_string()));
}

#[test]
fn table_clone_holds_the_same_entries() {
    let mut keys = ApiKeys::new();
    keys.set("openai", "sk-1");
    keys.set("gemini", "g-1");
    let copy = keys.clone();
    keys.set("openai", "");
    assert_eq!(sorted_entries(&copy), vec![pair("gemini", "g-1"), pair("openai", "sk-1")]);
    assert_eq!(sorted_entries(&keys), vec![pair("gemini", "g-1")]);
}

#[test]
fn migration_copies_the_legacy_key_to_the_active_provider() {
    let mut s = Settings::default();
    s.api_key = Some("legacy-secret".to_string());
    s.migrate_legacy_api_key();
    assert_eq!(s.api_key, None);
    assert_eq!(s.get_current_api_key(), "legacy-secret");
    assert_eq!(sorted_entries(&s.api_keys), vec![pair("openai", "legacy-secret")]);
}

#[test]
fn migration_uses_the_provider_of_the_record() {
    let mut s = Settings::default();
    s.provider = "gemini".to_string();
    s.set_api_key("openai", "sk-1");
    s.api_key = Some("legacy-secret".to_string());
    s.migrate_legacy_api_key();
    assert_eq!(s.api_key, None);
    assert_eq!(
        sorted_entries(&s.api_keys),
        vec![pair("gemini", "legacy-secret"), pair("openai", "sk-1")]
    );
}

#[test]
fn migration_keeps_an_existing_key() {
    let mut s = Settings::default();
    s.set_api_key("openai", "current");
    s.api_key = Some("legacy-secret".to_string());
    s.migrate_legacy_api_key();
    assert_eq!(s.api_key, None);
    assert_eq!(s.get_current_api_key(), "current");
}

#[test]
fn migration_drops_an_empty_legacy_key() {
    let mut s = Settings::default();
    s.api_key = Some(String::new());
    s.migrate_legacy_api_key();
    assert_eq!(s.api_key, None);
    assert!(s.api_keys.entries().is_empty());
    assert_eq!(s.get_current_api_key(), "");
}

#[test]
fn migration_without_legacy_key_changes_nothing() {
    let mut s = Settings::default();
    s.set_api_key("openai", "sk-1");
    s.migrate_legacy_api_key();
    assert_eq!(s.api_key, None);
    assert_eq!(sorted_entries(&s.api_keys), vec![pair("openai", "sk-1")]);
}

#[test]
fn migration_twice_is_migration_once() {
    let mut once = Settings::default();
    once.provider = "gemini".to_string();
    once.api_key = Some("legacy-secret".to_string());
    once.migrate_legacy_api_key();
    let mut twice = once.clone();
    twice.migrate_legacy_api_key();
    assert_eq!(twice.api_key, once.api_key);
    assert_eq!(sorted_entries(&twice.api_keys), sorted_entries(&once.api_keys));
    assert_eq!(twice.provider, once.provider);
    assert_eq!(twice.model, once.model);
    assert_eq!(twice.base_url, once.base_url);
    assert_eq!(twice.prompt, once.prompt);
    assert_eq!(twice.shortcut, once.shortcut);
    assert_eq!(twice.translate_shortcut, once.translate_shortcut);
    assert_eq!(twice.sound_enabled, once.sound_enabled);
    assert_eq!(twice.notifications_enabled, once.notifications_enabled);
}

#[test]
fn migration_leaves_the_other_fields_alone() {
    let mut s = Settings::default();
    s.shortcut = "Alt+1".to_string();
    s.translate_shortcut = "Alt+2".to_string();
    s.model = "m".to_string();
    s.base_url = "https://example.test".to_string();
    s.prompt = "Fix:".to_string();
    s.provider = "custom".to_string();
    s.sound_enabled = false;
    s.notifications_enabled = true;
    s.api_key = Some("k".to_string());
    s.migrate_legacy_api_key();
    assert_eq!(s.shortcut, "Alt+1");
    assert_eq!(s.translate_shortcut, "Alt+2");
    assert_eq!(s.model, "m");
    assert_eq!(s.base_url, "https://example.test");
    assert_eq!(s.prompt, "Fix:");
    assert_eq!(s.provider, "custom");
    assert!(!s.sound_enabled);
    assert!(s.notifications_enabled);
    assert_eq!(s.get_current_api_key(), "k");
}

#[test]
fn prepared_for_save_clears_the_legacy_key_only() {
    let mut s = Settings::default();
    s.set_api_key("openai", "sk-1");
    s.api_key = Some("legacy-secret".to_string());
    let record = s.prepared_for_save();
    assert_eq!(record.api_key, None);
    assert_eq!(sorted_entries(&record.api_keys), vec![pair("openai", "sk-1")]);
    assert_eq!(record.provider, "openai");
}

#[test]
fn load_without_a_stored_record_gives_the_defaults() {
    let s = Settings::from_stored(None);
    assert_eq!(s.provider, "openai");
    assert_eq!(s.model, "gpt-3.5-turbo");
    assert_eq!(s.base_url, "https://api.openai.com/v1");
    assert_eq!(s.api_key, None);
    assert!(s.api_keys.entries().is_empty());
    assert!(s.sound_enabled);
    assert!(!s.notifications_enabled);
}

#[test]
fn load_then_save_moves_the_legacy_key() {
    let mut stored = Settings::default();
    stored.provider = "gemini".to_string();
    stored.api_key = Some("legacy-secret".to_string());
    let loaded = Settings::from_stored(Some(stored));
    assert_eq!(loaded.api_key, None);
    assert_eq!(loaded.get_current_api_key(), "legacy-secret");
    let saved = loaded.prepared_for_save();
    assert_eq!(saved.api_key, None);
    assert_eq!(saved.api_key_for("gemini"), "legacy-secret");
    assert_eq!(sorted_entries(&saved.api_keys), vec![pair("gemini", "legacy-secret")]);
}

#[test]
fn load_applies_migration_to_a_stored_record() {
    let mut stored = Settings::default();
    stored.set_api_key("openai", "current");
    stored.api_key = Some("legacy-secret".to_string());
    let loaded = Settings::from_stored(Some(stored));
    assert_eq!(loaded.api_key, None);
    assert_eq!(loaded.get_current_api_key(), "current");
}
