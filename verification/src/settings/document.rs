//! Reading the settings file's text: the JSON document is parsed by
//! `serde_json`, each setting is read under its key the way its field is
//! typed, and the library's fallback rules turn the result into settings.
//! A text that is no JSON document gives the default settings.

use crate::settings::{
    default_settings, spec_normalize_url, spec_parse_theme, WallpaperTheme, lemma_default_settings_valid, lemma_from_stored_valid, spec_from_stored,
    Settings, SettingsView, StoredSettings, StoredView,
};
use vstd::prelude::*;

verus! {

/// Whether `serde_json::from_str` parses `raw` into a JSON value.
pub uninterp spec fn json_parses(raw: Seq<char>) -> bool;

/// What `serde_json` reads as an `i64` (`Value::as_i64`) under `key` of the
/// document `raw`: `None` when the text does not parse, the key is missing,
/// or the value there is no integer that fits.
pub uninterp spec fn json_int_at(raw: Seq<char>, key: Seq<char>) -> Option<i64>;

/// What `serde_json` reads as a boolean (`Value::as_bool`) under `key` of `raw`.
pub uninterp spec fn json_bool_at(raw: Seq<char>, key: Seq<char>) -> Option<bool>;

/// What `serde_json` reads as a string (`Value::as_str`) under `key` of `raw`.
pub uninterp spec fn json_text_at(raw: Seq<char>, key: Seq<char>) -> Option<Seq<char>>;

/// `serde_json::from_str::<Value>(raw).is_ok()`: claims that the answer is a
/// function of the text alone.
#[verifier::external_body]
fn parses_as_json(raw: &str) -> (res: bool)
    ensures
        res == json_parses(raw@),
{
    serde_json::from_str::<serde_json::Value>(raw).is_ok()
}

/// `serde_json::from_str::<Value>`, then `Value::get(key)` and
/// `Value::as_i64`: claims that the answer is a function of the text and the
/// key, and is `None` when the text does not parse.
#[verifier::external_body]
fn json_int(raw: &str, key: &str) -> (res: Option<i64>)
    ensures
        res == json_int_at(raw@, key@),
        !json_parses(raw@) ==> res is None,
{
    match serde_json::from_str::<serde_json::Value>(raw) {
        Ok(v) => v.get(key).and_then(serde_json::Value::as_i64),
        Err(_) => None,
    }
}

/// `serde_json::from_str::<Value>`, then `Value::get(key)` and
/// `Value::as_bool`: as [`json_int`], for booleans.
#[verifier::external_body]
fn json_bool(raw: &str, key: &str) -> (res: Option<bool>)
    ensures
        res == json_bool_at(raw@, key@),
        !json_parses(raw@) ==> res is None,
{
    match serde_json::from_str::<serde_json::Value>(raw) {
        Ok(v) => v.get(key).and_then(serde_json::Value::as_bool),
        Err(_) => None,
    }
}

/// `serde_json::from_str::<Value>`, then `Value::get(key)` and
/// `Value::as_str`: as [`json_int`], for strings.
#[verifier::external_body]
fn json_text(raw: &str, key: &str) -> (res: Option<String>)
    ensures
        match res {
            Some(t) => json_text_at(raw@, key@) == Some(t@),
            None => json_text_at(raw@, key@) is None,
        },
        !json_parses(raw@) ==> res is None,
{
    match serde_json::from_str::<serde_json::Value>(raw) {
        Ok(v) => v.get(key).and_then(serde_json::Value::as_str).map(String::from),
        Err(_) => None,
    }
}

/// The stored values that the settings text `raw` holds, key by key; `None`
/// when the text is no JSON document.
pub open spec fn settings_doc(raw: Seq<char>) -> Option<StoredView> {
    if json_parses(raw) {
        Some(
            StoredView {
                reminder_interval_minutes: json_int_at(raw, "reminderIntervalMinutes"@),
                break_duration_minutes: json_int_at(raw, "breakDurationMinutes"@),
                snooze_minutes: json_int_at(raw, "snoozeMinutes"@),
                wallpaper_image_url_string: json_text_at(raw, "wallpaperImageURLString"@),
                wallpaper_theme: json_text_at(raw, "wallpaperTheme"@),
                launch_at_login: json_bool_at(raw, "launchAtLogin"@),
                sound_enabled: json_bool_at(raw, "soundEnabled"@),
                overlay_other_windows: json_bool_at(raw, "overlayOtherWindows"@),
                activity_based_timing: json_bool_at(raw, "activityBasedTiming"@),
                idle_threshold_minutes: json_int_at(raw, "idleThresholdMinutes"@),
                auto_start_break: json_bool_at(raw, "autoStartBreak"@),
                auto_start_break_delay_seconds: json_int_at(raw, "autoStartBreakDelaySeconds"@),
                app_language: json_text_at(raw, "appLanguage"@),
                skipped_update_version: json_text_at(raw, "skippedUpdateVersion"@),
            },
        )
    } else {
        None
    }
}

/// The settings that stored values denote (see [`spec_from_stored`]), or the
/// defaults when there are none.
pub open spec fn spec_settings_from_doc(doc: Option<StoredView>) -> SettingsView {
    match doc {
        Some(st) => spec_from_stored(st),
        None => default_settings(),
    }
}

/// The stored values that the settings text holds (see [`settings_doc`]).
pub fn parse_settings_doc(raw: &str) -> (res: Option<StoredSettings>)
    ensures
        match res {
            Some(st) => settings_doc(raw@) == Some(st@),
            None => settings_doc(raw@) is None,
        },
{
    if !parses_as_json(raw) {
        return None;
    }
    Some(
        StoredSettings {
            reminder_interval_minutes: json_int(raw, "reminderIntervalMinutes"),
            break_duration_minutes: json_int(raw, "breakDurationMinutes"),
            snooze_minutes: json_int(raw, "snoozeMinutes"),
            wallpaper_image_url_string: json_text(raw, "wallpaperImageURLString"),
            wallpaper_theme: json_text(raw, "wallpaperTheme"),
            launch_at_login: json_bool(raw, "launchAtLogin"),
            sound_enabled: json_bool(raw, "soundEnabled"),
            overlay_other_windows: json_bool(raw, "overlayOtherWindows"),
            activity_based_timing: json_bool(raw, "activityBasedTiming"),
            idle_threshold_minutes: json_int(raw, "idleThresholdMinutes"),
            auto_start_break: json_bool(raw, "autoStartBreak"),
            auto_start_break_delay_seconds: json_int(raw, "autoStartBreakDelaySeconds"),
            app_language: json_text(raw, "appLanguage"),
            skipped_update_version: json_text(raw, "skippedUpdateVersion"),
        },
    )
}

/// The settings a settings file's text denotes: a text that is no JSON
/// document gives the defaults; otherwise each setting is read under its key
/// and an invalid or missing one falls back to its default. The result
/// always satisfies every settings rule.
pub fn settings_from_text(raw: &str) -> (res: Settings)
    ensures
        res@ == spec_settings_from_doc(settings_doc(raw@)),
        res@.is_valid(),
{
    match parse_settings_doc(raw) {
        Some(st) => {
            proof {
                lemma_from_stored_valid(st@);
            }
            Settings::from_stored(&st)
        },
        None => {
            proof {
                lemma_default_settings_valid();
            }
            Settings::default()
        },
    }
}


/// Each setting loaded from a JSON settings text is read under its own key
/// and its own kind: an integer that lies in that setting's own range is
/// taken as it is, any other value (out of range, of another kind, or
/// missing) gives that setting's default; booleans and texts are taken as
/// stored, the wallpaper address normalized, a theme only when named exactly.
/// What the other keys hold does not matter.
pub proof fn lemma_settings_text_read_by_key(raw: Seq<char>, r: SettingsView)
    requires
        json_parses(raw),
        r == spec_settings_from_doc(settings_doc(raw)),
    ensures
        r.reminder_interval_minutes == match json_int_at(raw, "reminderIntervalMinutes"@) {
            Some(n) => if 10 <= n <= 180 {
                n
            } else {
                45
            },
            None => 45,
        },
        r.break_duration_minutes == match json_int_at(raw, "breakDurationMinutes"@) {
            Some(n) => if 1 <= n <= 30 {
                n
            } else {
                5
            },
            None => 5,
        },
        r.snooze_minutes == match json_int_at(raw, "snoozeMinutes"@) {
            Some(n) => if 1 <= n <= 15 {
                n
            } else {
                5
            },
            None => 5,
        },
        r.idle_threshold_minutes == match json_int_at(raw, "idleThresholdMinutes"@) {
            Some(n) => if 1 <= n <= 10 {
                n
            } else {
                2
            },
            None => 2,
        },
        r.auto_start_break_delay_seconds == match json_int_at(raw, "autoStartBreakDelaySeconds"@) {
            Some(n) => if 0 <= n <= 300 {
                n
            } else {
                0
            },
            None => 0,
        },
        r.launch_at_login == match json_bool_at(raw, "launchAtLogin"@) {
            Some(b) => b,
            None => true,
        },
        r.sound_enabled == match json_bool_at(raw, "soundEnabled"@) {
            Some(b) => b,
            None => true,
        },
        r.overlay_other_windows == match json_bool_at(raw, "overlayOtherWindows"@) {
            Some(b) => b,
            None => false,
        },
        r.activity_based_timing == match json_bool_at(raw, "activityBasedTiming"@) {
            Some(b) => b,
            None => true,
        },
        r.auto_start_break == match json_bool_at(raw, "autoStartBreak"@) {
            Some(b) => b,
            None => true,
        },
        r.wallpaper_image_url_string == match json_text_at(raw, "wallpaperImageURLString"@) {
            Some(t) => spec_normalize_url(t),
            None => Seq::<char>::empty(),
        },
        r.wallpaper_theme == match json_text_at(raw, "wallpaperTheme"@) {
            Some(name) => match spec_parse_theme(name) {
                Some(t) => t,
                None => WallpaperTheme::Nature,
            },
            None => WallpaperTheme::Nature,
        },
        r.app_language == match json_text_at(raw, "appLanguage"@) {
            Some(l) => l,
            None => "chinese"@,
        },
        r.skipped_update_version == match json_text_at(raw, "skippedUpdateVersion"@) {
            Some(v) => v,
            None => Seq::<char>::empty(),
        },
{
}

/// A settings text that is no JSON document loads as the defaults: 45
/// minutes between breaks, 5-minute breaks and snoozes, a 2-minute idle
/// threshold, an immediate auto-start, every switch at its default, Chinese.
pub proof fn lemma_unparsable_settings_text_gives_defaults(raw: Seq<char>, r: SettingsView)
    requires
        !json_parses(raw),
        r == spec_settings_from_doc(settings_doc(raw)),
    ensures
        r.reminder_interval_minutes == 45,
        r.break_duration_minutes == 5,
        r.snooze_minutes == 5,
        r.idle_threshold_minutes == 2,
        r.auto_start_break_delay_seconds == 0,
        r.launch_at_login && r.sound_enabled && !r.overlay_other_windows,
        r.activity_based_timing && r.auto_start_break,
        r.wallpaper_image_url_string == Seq::<char>::empty(),
        r.wallpaper_theme == WallpaperTheme::Nature,
        r.app_language == "chinese"@,
        r.skipped_update_version == Seq::<char>::empty(),
{
}

} // verus!
