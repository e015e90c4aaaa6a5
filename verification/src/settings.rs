//! Persisted configuration: defaults, credential resolution and the one-time move of the
//! legacy single credential into the per-provider table.

use crate::api_keys::{stored, without_empty_keys, ApiKeys};
use vstd::prelude::*;

verus! {

/// The configuration record.
#[derive(Debug, Clone)]
pub struct Settings {
    /// Hotkey that starts a polish run.
    pub shortcut: String,
    /// Hotkey that starts a translate run.
    pub translate_shortcut: String,
    /// Secret key by provider identifier.
    pub api_keys: ApiKeys,
    /// The single credential of older records, kept only until it has been moved.
    pub api_key: Option<String>,
    /// Model name, understood by the active provider.
    pub model: String,
    /// Root of the provider's API endpoint.
    pub base_url: String,
    /// Instruction used for the polish operation.
    pub prompt: String,
    /// Identifier of the active provider.
    pub provider: String,
    /// Whether a finished run is announced by a sound.
    pub sound_enabled: bool,
    /// Whether runs are announced by notifications.
    pub notifications_enabled: bool,
}

/// The mathematical content of a `Settings` record.
pub struct SettingsView {
    pub shortcut: Seq<char>,
    pub translate_shortcut: Seq<char>,
    pub api_keys: Map<Seq<char>, Seq<char>>,
    pub api_key: Option<Seq<char>>,
    pub model: Seq<char>,
    pub base_url: Seq<char>,
    pub prompt: Seq<char>,
    pub provider: Seq<char>,
    pub sound_enabled: bool,
    pub notifications_enabled: bool,
}

impl View for Settings {
    type V = SettingsView;

    open spec fn view(&self) -> SettingsView {
        SettingsView {
            shortcut: self.shortcut@,
            translate_shortcut: self.translate_shortcut@,
            api_keys: self.api_keys@,
            api_key: match self.api_key {
                Some(key) => Some(key@),
                None => None,
            },
            model: self.model@,
            base_url: self.base_url@,
            prompt: self.prompt@,
            provider: self.provider@,
            sound_enabled: self.sound_enabled,
            notifications_enabled: self.notifications_enabled,
        }
    }
}

/// The record of a first run.
pub open spec fn default_settings() -> SettingsView {
    SettingsView {
        shortcut: "CmdOrCtrl+Alt+P"@,
        translate_shortcut: "CmdOrCtrl+Alt+T"@,
        api_keys: Map::empty(),
        api_key: None,
        model: "gpt-3.5-turbo"@,
        base_url: "https://api.openai.com/v1"@,
        prompt: "Please polish and improve the following text while maintaining its original meaning and tone:"@,
        provider: "openai"@,
        sound_enabled: true,
        notifications_enabled: false,
    }
}

/// The key stored for `provider`, or the empty text where none is stored.
pub open spec fn key_for(s: SettingsView, provider: Seq<char>) -> Seq<char> {
    if s.api_keys.contains_key(provider) {
        s.api_keys[provider]
    } else {
        Seq::empty()
    }
}

/// The key of the active provider, or the empty text where none is stored.
pub open spec fn resolved_key(s: SettingsView) -> Seq<char> {
    key_for(s, s.provider)
}

/// The record after `key` is stored for `provider`.
pub open spec fn with_key(s: SettingsView, provider: Seq<char>, key: Seq<char>) -> SettingsView {
    SettingsView { api_keys: stored(s.api_keys, provider, key), ..s }
}

/// Whether the legacy credential of `s` is due to be copied into the table: it is present and
/// not empty, and the active provider has no key yet.
pub open spec fn legacy_key_due(s: SettingsView) -> bool {
    &&& s.api_key matches Some(key)
    &&& key.len() > 0
    &&& !s.api_keys.contains_key(s.provider)
}

/// The record after migration: the legacy credential is copied where it is due, and is
/// absent afterwards in every case.
pub open spec fn migrated(s: SettingsView) -> SettingsView {
    SettingsView {
        api_keys: if legacy_key_due(s) {
            s.api_keys.insert(s.provider, s.api_key->0)
        } else {
            s.api_keys
        },
        api_key: None,
        ..s
    }
}

/// The record as it is written out: without the legacy credential.
pub open spec fn persisted(s: SettingsView) -> SettingsView {
    SettingsView { api_key: None, ..s }
}

/// The record that a load hands out: the stored one after migration, or the defaults where
/// nothing usable is stored.
pub open spec fn loaded(found: Option<SettingsView>) -> SettingsView {
    match found {
        Some(s) => migrated(s),
        None => default_settings(),
    }
}

/// Whether a finished run is announced by a sound unless configured otherwise.
pub fn default_sound_enabled() -> (enabled: bool)
    ensures
        enabled,
{
    true
}

/// Whether runs are announced by notifications unless configured otherwise.
pub fn default_notifications_enabled() -> (enabled: bool)
    ensures
        !enabled,
{
    false
}

/// The translate hotkey of a record that names none.
pub fn default_translate_shortcut() -> (shortcut: String)
    ensures
        shortcut@ == "CmdOrCtrl+Alt+T"@,
{
    "CmdOrCtrl+Alt+T".to_owned()
}

/// Name of the per-application directory, below the user's configuration directory, that
/// holds the record.
pub fn settings_dir_name() -> (name: &'static str)
    ensures
        name@ == "polish-language"@,
{
    "polish-language"
}

/// Name of the file that holds the record.
pub fn settings_file_name() -> (name: &'static str)
    ensures
        name@ == "settings.json"@,
{
    "settings.json"
}

impl Default for Settings {
    fn default() -> (settings: Settings)
        ensures
            settings@ == default_settings(),
    {
        Settings {
            shortcut: "CmdOrCtrl+Alt+P".to_owned(),
            translate_shortcut: default_translate_shortcut(),
            api_keys: ApiKeys::new(),
            api_key: None,
            model: "gpt-3.5-turbo".to_owned(),
            base_url: "https://api.openai.com/v1".to_owned(),
            prompt: "Please polish and improve the following text while maintaining its original meaning and tone:".to_owned(),
            provider: "openai".to_owned(),
            sound_enabled: default_sound_enabled(),
            notifications_enabled: default_notifications_enabled(),
        }
    }
}

impl Settings {
    /// The key stored for `provider`, or the empty text where none is stored.
    pub fn api_key_for(&self, provider: &str) -> (key: String)
        ensures
            key@ == key_for(self@, provider@),
            without_empty_keys(self@.api_keys),
    {
        match self.api_keys.get(provider) {
            Some(key) => key.clone(),
            None => String::new(),
        }
    }

    /// The key of the active provider, or the empty text where none is stored.
    pub fn get_current_api_key(&self) -> (key: String)
        ensures
            key@ == resolved_key(self@),
            without_empty_keys(self@.api_keys),
    {
        self.api_key_for(self.provider.as_str())
    }

    /// Stores `api_key` for `provider`; an empty `api_key` removes the provider's entry.
    pub fn set_api_key(&mut self, provider: &str, api_key: &str)
        ensures
            final(self)@ == with_key(old(self)@, provider@, api_key@),
            without_empty_keys(final(self)@.api_keys),
    {
        self.api_keys.set(provider, api_key);
    }

    /// Moves the legacy credential into the table: it is copied to the active provider where
    /// it is not empty and that provider has no key yet, and cleared in every case.
    pub fn migrate_legacy_api_key(&mut self)
        ensures
            final(self)@ == migrated(old(self)@),
            without_empty_keys(final(self)@.api_keys),
    {
        let legacy = self.api_key.take();
        let provided = self.api_keys.contains(self.provider.as_str());
        match legacy {
            Some(key) => {
                if !key.as_str().is_empty() && !provided {
                    self.api_keys.set(self.provider.as_str(), key.as_str());
                }
            },
            None => {},
        }
    }

    /// The record to write out: `self` without the legacy credential.
    pub fn prepared_for_save(self) -> (record: Settings)
        ensures
            record@ == persisted(self@),
    {
        let mut record = self;
        record.api_key = None;
        record
    }

    /// The record that a load hands out: `found` after migration, or the defaults where
    /// nothing usable was found.
    pub fn from_stored(found: Option<Settings>) -> (settings: Settings)
        ensures
            settings@ == loaded(
                match found {
                    Some(s) => Some(s@),
                    None => None,
                },
            ),
    {
        match found {
            Some(stored) => {
                let mut settings = stored;
                settings.migrate_legacy_api_key();
                settings
            },
            None => Settings::default(),
        }
    }
}

/// A record whose legacy credential is due comes out of a load followed by a save with that
/// credential stored for the active provider, and without a legacy credential.
pub proof fn law_load_then_save_migrates(s: SettingsView)
    requires
        legacy_key_due(s),
    ensures
        persisted(loaded(Some(s))).api_keys.contains_key(s.provider),
        persisted(loaded(Some(s))).api_keys[s.provider] == s.api_key->0,
        persisted(loaded(Some(s))).api_key is None,
{
}

/// After a load the legacy credential is absent, whatever was stored.
pub proof fn law_loaded_has_no_legacy_key(found: Option<SettingsView>)
    ensures
        loaded(found).api_key is None,
{
}

/// Migrating twice gives what migrating once gives.
pub proof fn law_migration_idempotent(s: SettingsView)
    ensures
        migrated(migrated(s)) == migrated(s),
{
}

/// Migration never replaces a key that the active provider already has, and touches no other
/// provider's key.
pub proof fn law_migration_keeps_existing_keys(s: SettingsView, provider: Seq<char>)
    requires
        s.api_keys.contains_key(provider),
    ensures
        migrated(s).api_keys.contains_key(provider),
        migrated(s).api_keys[provider] == s.api_keys[provider],
{
}

/// Storing the empty key for a provider leaves that provider without an entry.
pub proof fn law_empty_key_removes_entry(s: SettingsView, provider: Seq<char>)
    ensures
        !with_key(s, provider, Seq::empty()).api_keys.contains_key(provider),
        key_for(with_key(s, provider, Seq::empty()), provider) == Seq::<char>::empty(),
{
}

/// A non-empty key stored for a provider is the key resolved once that provider is active.
pub proof fn law_stored_key_resolves(s: SettingsView, provider: Seq<char>, key: Seq<char>)
    requires
        key.len() > 0,
    ensures
        resolved_key(SettingsView { provider: provider, ..with_key(s, provider, key) }) == key,
{
}

/// Storing a key for one provider changes no other provider's key.
pub proof fn law_store_is_local(
    s: SettingsView,
    provider: Seq<char>,
    key: Seq<char>,
    other: Seq<char>,
)
    requires
        other != provider,
    ensures
        key_for(with_key(s, provider, key), other) == key_for(s, other),
{
}

/// A table without empty keys stays so under storing and under migration.
pub proof fn law_no_empty_key_is_kept(s: SettingsView, provider: Seq<char>, key: Seq<char>)
    requires
        without_empty_keys(s.api_keys),
    ensures
        without_empty_keys(with_key(s, provider, key).api_keys),
        without_empty_keys(migrated(s).api_keys),
{
}

} // verus!
