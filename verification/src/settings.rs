//! The persisted settings: what a stored document stands for, and what is
//! made of the answers of the settings store and the auto-launch service when
//! they are read.

use vstd::prelude::*;
use vstd::string::StringExecFns;
use crate::json::{
    empty_document, flag_member, json_is_object, json_members, member_flag, member_text, set_flag,
    set_text, text_member, JsonMember,
};

verus! {

/// The user's preferences.
#[derive(Debug, PartialEq, Eq)]
pub struct AppSettings {
    pub theme: String,
    pub auto_launch: bool,
    pub minimize_to_tray: bool,
    pub global_shortcuts_enabled: bool,
}

/// The mathematical value of [`AppSettings`].
pub struct AppSettingsView {
    pub theme: Seq<char>,
    pub auto_launch: bool,
    pub minimize_to_tray: bool,
    pub global_shortcuts_enabled: bool,
}

impl View for AppSettings {
    type V = AppSettingsView;

    open spec fn view(&self) -> AppSettingsView {
        AppSettingsView {
            theme: self.theme@,
            auto_launch: self.auto_launch,
            minimize_to_tray: self.minimize_to_tray,
            global_shortcuts_enabled: self.global_shortcuts_enabled,
        }
    }
}

/// The defaults: no theme, and everything switched off.
pub open spec fn default_settings() -> AppSettingsView {
    AppSettingsView {
        theme: Seq::empty(),
        auto_launch: false,
        minimize_to_tray: false,
        global_shortcuts_enabled: false,
    }
}

impl Default for AppSettings {
    fn default() -> (r: AppSettings)
        ensures
            r@ == default_settings(),
    {
        AppSettings {
            theme: String::new(),
            auto_launch: false,
            minimize_to_tray: false,
            global_shortcuts_enabled: false,
        }
    }
}

impl Clone for AppSettings {
    fn clone(&self) -> (r: Self)
        ensures
            r@ == self@,
    {
        AppSettings {
            theme: self.theme.clone(),
            auto_launch: self.auto_launch,
            minimize_to_tray: self.minimize_to_tray,
            global_shortcuts_enabled: self.global_shortcuts_enabled,
        }
    }
}

/// The string stored under `key`, or the empty string where none is stored.
pub open spec fn stored_text(members: Map<Seq<char>, JsonMember>, key: Seq<char>) -> Seq<char> {
    match member_text(members, key) {
        Some(text) => text,
        None => Seq::empty(),
    }
}

/// The boolean stored under `key`, or `false` where none is stored.
pub open spec fn stored_flag(members: Map<Seq<char>, JsonMember>, key: Seq<char>) -> bool {
    member_flag(members, key) == Some(true)
}

/// The settings that the members of a stored document stand for. Each field
/// is read by its own key; a field whose member is missing, or is of another
/// type, has its default.
pub open spec fn stored_settings(members: Map<Seq<char>, JsonMember>) -> AppSettingsView {
    AppSettingsView {
        theme: stored_text(members, "theme"@),
        auto_launch: stored_flag(members, "auto_launch"@),
        minimize_to_tray: stored_flag(members, "minimize_to_tray"@),
        global_shortcuts_enabled: stored_flag(members, "global_shortcuts_enabled"@),
    }
}

/// The members of the document that `settings` are stored as: one for each
/// field, and no other.
pub open spec fn written_members(settings: AppSettingsView) -> Map<Seq<char>, JsonMember> {
    Map::<Seq<char>, JsonMember>::empty().insert("theme"@, JsonMember::Text(settings.theme)).insert(
        "auto_launch"@,
        JsonMember::Flag(settings.auto_launch),
    ).insert("minimize_to_tray"@, JsonMember::Flag(settings.minimize_to_tray)).insert(
        "global_shortcuts_enabled"@,
        JsonMember::Flag(settings.global_shortcuts_enabled),
    )
}

/// Reads the settings from a stored document, with the default for every
/// field that the document does not hold in its proper type.
pub fn settings_from_document(document: &serde_json::Value) -> (r: AppSettings)
    ensures
        r@ == stored_settings(json_members(*document)),
{
    let theme = match text_member(document, "theme") {
        Some(text) => text,
        None => String::new(),
    };
    let auto_launch = match flag_member(document, "auto_launch") {
        Some(flag) => flag,
        None => false,
    };
    let minimize_to_tray = match flag_member(document, "minimize_to_tray") {
        Some(flag) => flag,
        None => false,
    };
    let global_shortcuts_enabled = match flag_member(document, "global_shortcuts_enabled") {
        Some(flag) => flag,
        None => false,
    };
    AppSettings { theme, auto_launch, minimize_to_tray, global_shortcuts_enabled }
}

/// The document that `settings` are stored as: an object with one member for
/// each field.
pub fn settings_to_document(settings: &AppSettings) -> (document: serde_json::Value)
    ensures
        json_is_object(document),
        json_members(document) == written_members(settings@),
{
    let mut document = empty_document();
    set_text(&mut document, "theme", settings.theme.as_str());
    set_flag(&mut document, "auto_launch", settings.auto_launch);
    set_flag(&mut document, "minimize_to_tray", settings.minimize_to_tray);
    set_flag(&mut document, "global_shortcuts_enabled", settings.global_shortcuts_enabled);
    document
}

/// The four keys of a settings document are pairwise distinct.
pub proof fn lemma_keys_differ()
    ensures
        "theme"@ != "auto_launch"@,
        "theme"@ != "minimize_to_tray"@,
        "theme"@ != "global_shortcuts_enabled"@,
        "auto_launch"@ != "minimize_to_tray"@,
        "auto_launch"@ != "global_shortcuts_enabled"@,
        "minimize_to_tray"@ != "global_shortcuts_enabled"@,
{
    reveal_strlit("theme");
    reveal_strlit("auto_launch");
    reveal_strlit("minimize_to_tray");
    reveal_strlit("global_shortcuts_enabled");
    assert("theme"@.len() == 5);
    assert("auto_launch"@.len() == 11);
    assert("minimize_to_tray"@.len() == 16);
    assert("global_shortcuts_enabled"@.len() == 24);
}

/// What is written is what is read back.
pub proof fn lemma_settings_round_trip(settings: AppSettingsView)
    ensures
        stored_settings(written_members(settings)) == settings,
{
    lemma_keys_differ();
}

/// A document that holds none of the four fields in its proper type, such as
/// a corrupted one, stands for the defaults.
pub proof fn lemma_unusable_document_gives_defaults(members: Map<Seq<char>, JsonMember>)
    requires
        member_text(members, "theme"@) is None,
        member_flag(members, "auto_launch"@) is None,
        member_flag(members, "minimize_to_tray"@) is None,
        member_flag(members, "global_shortcuts_enabled"@) is None,
    ensures
        stored_settings(members) == default_settings(),
{
}

/// A field that is corrupted or missing has its default and leaves the other
/// fields as they are stored.
pub proof fn lemma_fields_fall_back_alone(members: Map<Seq<char>, JsonMember>, key: Seq<char>)
    ensures
        stored_settings(members.insert(key, JsonMember::Other)) == stored_settings(
            members.remove(key),
        ),
        stored_settings(members.remove("theme"@)) == (AppSettingsView {
            theme: Seq::empty(),
            ..stored_settings(members)
        }),
        stored_settings(members.remove("auto_launch"@)) == (AppSettingsView {
            auto_launch: false,
            ..stored_settings(members)
        }),
        stored_settings(members.remove("minimize_to_tray"@)) == (AppSettingsView {
            minimize_to_tray: false,
            ..stored_settings(members)
        }),
        stored_settings(members.remove("global_shortcuts_enabled"@)) == (AppSettingsView {
            global_shortcuts_enabled: false,
            ..stored_settings(members)
        }),
{
    lemma_keys_differ();
}

/// Why reading or writing the settings, or changing the auto-launch
/// registration, did not succeed. `detail` is what the service said.
#[derive(Debug, PartialEq, Eq)]
pub enum SettingsError {
    /// The settings store could not be opened.
    OpenStore { detail: String },
    /// The settings store could not be saved.
    Save { detail: String },
    /// The auto-launch registration could not be read.
    AutoLaunchStatus { detail: String },
    /// The application could not be registered for auto-launch.
    EnableAutoLaunch { detail: String },
    /// The application could not be unregistered from auto-launch.
    DisableAutoLaunch { detail: String },
}

/// The mathematical value of a [`SettingsError`].
pub enum SettingsErrorView {
    OpenStore { detail: Seq<char> },
    Save { detail: Seq<char> },
    AutoLaunchStatus { detail: Seq<char> },
    EnableAutoLaunch { detail: Seq<char> },
    DisableAutoLaunch { detail: Seq<char> },
}

impl View for SettingsError {
    type V = SettingsErrorView;

    open spec fn view(&self) -> SettingsErrorView {
        match self {
            SettingsError::OpenStore { detail } => SettingsErrorView::OpenStore { detail: detail@ },
            SettingsError::Save { detail } => SettingsErrorView::Save { detail: detail@ },
            SettingsError::AutoLaunchStatus { detail } => SettingsErrorView::AutoLaunchStatus {
                detail: detail@,
            },
            SettingsError::EnableAutoLaunch { detail } => SettingsErrorView::EnableAutoLaunch {
                detail: detail@,
            },
            SettingsError::DisableAutoLaunch { detail } => SettingsErrorView::DisableAutoLaunch {
                detail: detail@,
            },
        }
    }
}

/// The text that an error is reported with.
pub open spec fn error_message(error: SettingsErrorView) -> Seq<char> {
    match error {
        SettingsErrorView::OpenStore { detail } => "Failed to open store: "@ + detail,
        SettingsErrorView::Save { detail } => "Failed to save settings: "@ + detail,
        SettingsErrorView::AutoLaunchStatus { detail } => "Failed to get auto-launch status: "@
            + detail,
        SettingsErrorView::EnableAutoLaunch { detail } => "Failed to enable auto-launch: "@
            + detail,
        SettingsErrorView::DisableAutoLaunch { detail } => "Failed to disable auto-launch: "@
            + detail,
    }
}

impl SettingsError {
    /// The text that the error is reported with.
    pub fn message(&self) -> (r: String)
        ensures
            r@ == error_message(self@),
    {
        match self {
            SettingsError::OpenStore { detail } => "Failed to open store: ".to_owned().concat(
                detail.as_str(),
            ),
            SettingsError::Save { detail } => "Failed to save settings: ".to_owned().concat(
                detail.as_str(),
            ),
            SettingsError::AutoLaunchStatus { detail } => "Failed to get auto-launch status: "
                .to_owned().concat(detail.as_str()),
            SettingsError::EnableAutoLaunch { detail } => "Failed to enable auto-launch: "
                .to_owned().concat(detail.as_str()),
            SettingsError::DisableAutoLaunch { detail } => "Failed to disable auto-launch: "
                .to_owned().concat(detail.as_str()),
        }
    }
}

/// The value of a stored document that may be absent.
pub open spec fn document_settings(stored: Option<serde_json::Value>) -> AppSettingsView {
    match stored {
        Some(document) => stored_settings(json_members(document)),
        None => default_settings(),
    }
}

/// The settings, from what the store returned: the store's error if it could
/// not be opened, the defaults if nothing is stored, and otherwise what the
/// stored document holds, field by field. Reading never fails on what is
/// stored.
pub fn get_settings(stored: Result<Option<serde_json::Value>, String>) -> (r: Result<
    AppSettings,
    SettingsError,
>)
    ensures
        match stored {
            Ok(found) => r matches Ok(settings) && settings@ == document_settings(found),
            Err(detail) => r matches Err(error) && error@ == (SettingsErrorView::OpenStore {
                detail: detail@,
            }),
        },
{
    match stored {
        Ok(Some(document)) => Ok(settings_from_document(&document)),
        Ok(None) => Ok(AppSettings::default()),
        Err(detail) => Err(SettingsError::OpenStore { detail }),
    }
}

/// The auto-launch registration, from what the service returned.
pub fn get_auto_launch(reading: Result<bool, String>) -> (r: Result<bool, SettingsError>)
    ensures
        match reading {
            Ok(enabled) => r == Ok::<bool, SettingsError>(enabled),
            Err(detail) => r matches Err(error) && error@ == (SettingsErrorView::AutoLaunchStatus {
                detail: detail@,
            }),
        },
{
    match reading {
        Ok(enabled) => Ok(enabled),
        Err(detail) => Err(SettingsError::AutoLaunchStatus { detail }),
    }
}

} // verus!
