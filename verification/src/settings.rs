//! Settings and their rules.
//!
//! - A written value out of range is **clamped** into range before it is kept;
//! - a stored value out of range is **replaced by the default** when read back
//!   (not clamped to the nearest bound);
//! - the custom wallpaper address is normalized: trimmed, it must be an
//!   http(s) URL different from the default image source, else it is stored
//!   as the empty string.
//!
//! The reminder window's opacity is a floating-point setting and is kept by the
//! application beside these settings.

pub mod document;
pub mod ranges;

use crate::text::{
    after_last, after_last_exec, ascii_lowercase, authority_end_exec, authority_end_from,
    chars_of, find_from, find_from_exec, spec_trim, str_eq, to_ascii_lowercase, trim,
};
use vstd::prelude::*;

verus! {

/// The default online image source.
pub const DEFAULT_WALLPAPER_URL: &'static str = "https://picsum.photos/2880/1800";

/// Theme of the locally rendered fallback wallpaper.
#[derive(Debug, Clone, Copy, PartialEq, Eq, Structural)]
pub enum WallpaperTheme {
    Nature,
    CityNight,
    Minimal,
    Cartoon,
}

impl Default for WallpaperTheme {
    fn default() -> (res: Self)
        ensures
            res == WallpaperTheme::Nature,
    {
        WallpaperTheme::Nature
    }
}

/// The stored name of a theme.
pub open spec fn spec_theme_name(t: WallpaperTheme) -> Seq<char> {
    match t {
        WallpaperTheme::Nature => "nature"@,
        WallpaperTheme::CityNight => "cityNight"@,
        WallpaperTheme::Minimal => "minimal"@,
        WallpaperTheme::Cartoon => "cartoon"@,
    }
}

/// The theme a stored name denotes, if any.
pub open spec fn spec_parse_theme(s: Seq<char>) -> Option<WallpaperTheme> {
    if s == "nature"@ {
        Some(WallpaperTheme::Nature)
    } else if s == "cityNight"@ {
        Some(WallpaperTheme::CityNight)
    } else if s == "minimal"@ {
        Some(WallpaperTheme::Minimal)
    } else if s == "cartoon"@ {
        Some(WallpaperTheme::Cartoon)
    } else {
        None
    }
}

/// The stored name of a theme.
pub fn theme_name(t: WallpaperTheme) -> (res: &'static str)
    ensures
        res@ == spec_theme_name(t),
{
    match t {
        WallpaperTheme::Nature => "nature",
        WallpaperTheme::CityNight => "cityNight",
        WallpaperTheme::Minimal => "minimal",
        WallpaperTheme::Cartoon => "cartoon",
    }
}

/// The theme a stored name denotes; `None` for any other text.
pub fn parse_theme(s: &str) -> (res: Option<WallpaperTheme>)
    ensures
        res == spec_parse_theme(s@),
{
    if str_eq(s, "nature") {
        Some(WallpaperTheme::Nature)
    } else if str_eq(s, "cityNight") {
        Some(WallpaperTheme::CityNight)
    } else if str_eq(s, "minimal") {
        Some(WallpaperTheme::Minimal)
    } else if str_eq(s, "cartoon") {
        Some(WallpaperTheme::Cartoon)
    } else {
        None
    }
}

/// `v` clamped into `[lo, hi]`.
pub open spec fn spec_clamp(v: i64, r: (i64, i64)) -> i64 {
    if v < r.0 {
        r.0
    } else if v > r.1 {
        r.1
    } else {
        v
    }
}

/// Whether `v` lies in `[lo, hi]`.
pub open spec fn in_range(v: i64, r: (i64, i64)) -> bool {
    r.0 <= v <= r.1
}

/// Clamps `v` into the range `r` (as `i64::clamp`, which requires `lo <= hi`).
pub fn clamp_i(v: i64, r: (i64, i64)) -> (res: i64)
    requires
        r.0 <= r.1,
    ensures
        res == spec_clamp(v, r),
        in_range(res, r),
{
    if v < r.0 {
        r.0
    } else if v > r.1 {
        r.1
    } else {
        v
    }
}

/// Minimal URL: a scheme (lower-cased) and an authority host.
pub struct Url {
    scheme: String,
    host: Option<String>,
}

impl View for Url {
    type V = (Seq<char>, Option<Seq<char>>);

    closed spec fn view(&self) -> (Seq<char>, Option<Seq<char>>) {
        (
            self.scheme@,
            match self.host {
                Some(h) => Some(h@),
                None => None,
            },
        )
    }
}

/// How `input` parses as `scheme://host...`: the scheme is the text before the
/// first `://`, lower-cased; the host is what follows it up to the first `/`,
/// `?` or `#`, after the last `@`. `None` when `input` has no `://`.
pub open spec fn spec_parse_url(input: Seq<char>) -> Option<(Seq<char>, Seq<char>)> {
    match find_from(input, "://"@, 0) {
        Some(i) => {
            let rest = input.skip(i + "://"@.len());
            let host = rest.take(authority_end_from(rest, 0));
            Some((ascii_lowercase(input.take(i)), after_last(host, '@')))
        },
        None => None,
    }
}

impl Url {
    /// Parses `scheme://host...`; fails when the input holds no `://`.
    pub fn parse(input: &str) -> (res: Result<Url, ()>)
        ensures
            match res {
                Ok(url) => spec_parse_url(input@) == Some((url@.0, url@.1->0)) && url@.1 is Some,
                Err(_) => spec_parse_url(input@) is None,
            },
    {
        let sv = chars_of(input);
        let sep = "://";
        let pv = chars_of(sep);
        match find_from_exec(&sv, &pv, 0) {
            None => Err(()),
            Some(i) => {
                let n = sv.len();
                proof {
                    crate::text::lemma_find_from_found(sv@, pv@, 0);
                }
                let scheme_part = input.substring_char(0, i);
                let rest = input.substring_char(i + pv.len(), n);
                let rv = chars_of(rest);
                let end = authority_end_exec(&rv);
                proof {
                    crate::text::lemma_authority_end_bounds(rv@, 0);
                }
                proof {
                    assert(scheme_part@ =~= input@.take(i as int));
                    assert(rest@ =~= input@.skip(i + "://"@.len()));
                }
                let host = rest.substring_char(0, end);
                assert(host@ =~= rest@.take(end as int));
                let host_clean = after_last_exec(host, '@');
                Ok(Url { scheme: to_ascii_lowercase(scheme_part), host: Some(host_clean.to_owned()) })
            },
        }
    }

    /// The scheme, lower-cased.
    pub fn scheme(&self) -> (res: &str)
        ensures
            res@ == self@.0,
    {
        self.scheme.as_str()
    }

    /// The host, if any.
    pub fn host_str(&self) -> (res: Option<&str>)
        ensures
            match res {
                Some(h) => self@.1 == Some(h@),
                None => self@.1 is None,
            },
    {
        match &self.host {
            Some(h) => Some(h.as_str()),
            None => None,
        }
    }
}

/// Whether `s`, trimmed, is an http or https URL with a non-empty host.
pub open spec fn spec_is_http_url(s: Seq<char>) -> bool {
    match spec_parse_url(spec_trim(s)) {
        Some((scheme, host)) => (scheme == "http"@ || scheme == "https"@) && host.len() > 0,
        None => false,
    }
}

/// The stored form of a custom wallpaper address: the trimmed text when it is
/// an http(s) URL other than the default source; otherwise empty.
pub open spec fn spec_normalize_url(raw: Seq<char>) -> Seq<char> {
    let t = spec_trim(raw);
    if t.len() == 0 {
        Seq::empty()
    } else if spec_is_http_url(t) && t != DEFAULT_WALLPAPER_URL@ {
        t
    } else {
        Seq::empty()
    }
}

/// Whether `s`, trimmed, is an http(s) URL whose host is not empty.
pub fn is_http_url(s: &str) -> (res: bool)
    ensures
        res == spec_is_http_url(s@),
{
    match Url::parse(trim(s)) {
        Err(_) => false,
        Ok(url) => {
            let scheme_ok = str_eq(url.scheme(), "http") || str_eq(url.scheme(), "https");
            match url.host_str() {
                Some(h) => scheme_ok && h.unicode_len() > 0,
                None => false,
            }
        },
    }
}

/// The stored form of a custom wallpaper address (see [`spec_normalize_url`]).
pub fn normalize_url_string(raw: &str) -> (res: String)
    ensures
        res@ == spec_normalize_url(raw@),
{
    let t = trim(raw);
    if t.unicode_len() == 0 {
        return String::new();
    }
    if is_http_url(t) && !str_eq(t, DEFAULT_WALLPAPER_URL) {
        t.to_owned()
    } else {
        String::new()
    }
}

} // verus!

verus! {

/// All settings but the window opacity.
#[derive(Debug, Clone, PartialEq)]
pub struct Settings {
    pub reminder_interval_minutes: i64,
    pub break_duration_minutes: i64,
    pub snooze_minutes: i64,
    pub wallpaper_image_url_string: String,
    pub wallpaper_theme: WallpaperTheme,
    pub launch_at_login: bool,
    pub sound_enabled: bool,
    pub overlay_other_windows: bool,
    pub activity_based_timing: bool,
    pub idle_threshold_minutes: i64,
    pub auto_start_break: bool,
    pub auto_start_break_delay_seconds: i64,
    /// Interface language key (`"english"` / `"chinese"`).
    pub app_language: String,
    /// The update version the user chose to skip (internal).
    pub skipped_update_version: String,
}

/// Settings as plain values.
pub struct SettingsView {
    pub reminder_interval_minutes: i64,
    pub break_duration_minutes: i64,
    pub snooze_minutes: i64,
    pub wallpaper_image_url_string: Seq<char>,
    pub wallpaper_theme: WallpaperTheme,
    pub launch_at_login: bool,
    pub sound_enabled: bool,
    pub overlay_other_windows: bool,
    pub activity_based_timing: bool,
    pub idle_threshold_minutes: i64,
    pub auto_start_break: bool,
    pub auto_start_break_delay_seconds: i64,
    pub app_language: Seq<char>,
    pub skipped_update_version: Seq<char>,
}

impl View for Settings {
    type V = SettingsView;

    open spec fn view(&self) -> SettingsView {
        SettingsView {
            reminder_interval_minutes: self.reminder_interval_minutes,
            break_duration_minutes: self.break_duration_minutes,
            snooze_minutes: self.snooze_minutes,
            wallpaper_image_url_string: self.wallpaper_image_url_string@,
            wallpaper_theme: self.wallpaper_theme,
            launch_at_login: self.launch_at_login,
            sound_enabled: self.sound_enabled,
            overlay_other_windows: self.overlay_other_windows,
            activity_based_timing: self.activity_based_timing,
            idle_threshold_minutes: self.idle_threshold_minutes,
            auto_start_break: self.auto_start_break,
            auto_start_break_delay_seconds: self.auto_start_break_delay_seconds,
            app_language: self.app_language@,
            skipped_update_version: self.skipped_update_version@,
        }
    }
}

/// The default settings.
pub open spec fn default_settings() -> SettingsView {
    SettingsView {
        reminder_interval_minutes: 45,
        break_duration_minutes: 5,
        snooze_minutes: 5,
        wallpaper_image_url_string: Seq::empty(),
        wallpaper_theme: WallpaperTheme::Nature,
        launch_at_login: true,
        sound_enabled: true,
        overlay_other_windows: false,
        activity_based_timing: true,
        idle_threshold_minutes: 2,
        auto_start_break: true,
        auto_start_break_delay_seconds: 0,
        app_language: "chinese"@,
        skipped_update_version: Seq::empty(),
    }
}

impl SettingsView {
    /// Every numeric setting lies in its range.
    pub open spec fn timing_in_range(self) -> bool {
        &&& in_range(self.reminder_interval_minutes, ranges::INTERVAL)
        &&& in_range(self.break_duration_minutes, ranges::BREAK_DURATION)
        &&& in_range(self.snooze_minutes, ranges::SNOOZE)
        &&& in_range(self.idle_threshold_minutes, ranges::IDLE_THRESHOLD)
        &&& in_range(self.auto_start_break_delay_seconds, ranges::AUTO_START_DELAY)
    }

    /// What the settings rules guarantee of every kept value: numbers in
    /// range, wallpaper address in normalized form.
    pub open spec fn is_valid(self) -> bool {
        &&& self.timing_in_range()
        &&& spec_normalize_url(self.wallpaper_image_url_string) == self.wallpaper_image_url_string
    }
}

impl Default for Settings {
    fn default() -> (res: Self)
        ensures
            res@ == default_settings(),
    {
        Settings {
            reminder_interval_minutes: 45,
            break_duration_minutes: 5,
            snooze_minutes: 5,
            wallpaper_image_url_string: String::new(),
            wallpaper_theme: WallpaperTheme::Nature,
            launch_at_login: true,
            sound_enabled: true,
            overlay_other_windows: false,
            activity_based_timing: true,
            idle_threshold_minutes: 2,
            auto_start_break: true,
            auto_start_break_delay_seconds: 0,
            app_language: "chinese".to_owned(),
            skipped_update_version: String::new(),
        }
    }
}

} // verus!

verus! {

impl Settings {
    /// Whether every numeric setting lies in its range.
    pub fn timing_in_range(&self) -> (res: bool)
        ensures
            res == self@.timing_in_range(),
    {
        ranges::INTERVAL.0 <= self.reminder_interval_minutes && self.reminder_interval_minutes
            <= ranges::INTERVAL.1 && ranges::BREAK_DURATION.0 <= self.break_duration_minutes
            && self.break_duration_minutes <= ranges::BREAK_DURATION.1 && ranges::SNOOZE.0
            <= self.snooze_minutes && self.snooze_minutes <= ranges::SNOOZE.1
            && ranges::IDLE_THRESHOLD.0 <= self.idle_threshold_minutes
            && self.idle_threshold_minutes <= ranges::IDLE_THRESHOLD.1
            && ranges::AUTO_START_DELAY.0 <= self.auto_start_break_delay_seconds
            && self.auto_start_break_delay_seconds <= ranges::AUTO_START_DELAY.1
    }

    /// A copy of these settings.
    pub fn copied(&self) -> (res: Settings)
        ensures
            res@ == self@,
    {
        Settings {
            reminder_interval_minutes: self.reminder_interval_minutes,
            break_duration_minutes: self.break_duration_minutes,
            snooze_minutes: self.snooze_minutes,
            wallpaper_image_url_string: self.wallpaper_image_url_string.clone(),
            wallpaper_theme: self.wallpaper_theme,
            launch_at_login: self.launch_at_login,
            sound_enabled: self.sound_enabled,
            overlay_other_windows: self.overlay_other_windows,
            activity_based_timing: self.activity_based_timing,
            idle_threshold_minutes: self.idle_threshold_minutes,
            auto_start_break: self.auto_start_break,
            auto_start_break_delay_seconds: self.auto_start_break_delay_seconds,
            app_language: self.app_language.clone(),
            skipped_update_version: self.skipped_update_version.clone(),
        }
    }
}

/// A value handed in for one setting, read each way a setting may take it
/// (as a boolean, as an integer, as text); each is `None` when the value is
/// not of that kind.
pub struct SettingValue {
    pub as_bool: Option<bool>,
    pub as_i64: Option<i64>,
    pub as_str: Option<String>,
}

/// A setting value as plain values.
pub struct SettingValueView {
    pub as_bool: Option<bool>,
    pub as_i64: Option<i64>,
    pub as_str: Option<Seq<char>>,
}

impl View for SettingValue {
    type V = SettingValueView;

    open spec fn view(&self) -> SettingValueView {
        SettingValueView {
            as_bool: self.as_bool,
            as_i64: self.as_i64,
            as_str: match self.as_str {
                Some(t) => Some(t@),
                None => None,
            },
        }
    }
}

/// The answer to a settings write.
pub enum SetResult {
    /// The setting was kept; `value` is the whole settings afterwards.
    Saved { value: Settings },
    /// No setting has this key.
    UnknownKey,
    /// The value has the wrong kind for this key (or names no theme); nothing changed.
    BadValue,
}

/// The outcome of a settings write, as plain values.
pub enum ApplyOutcome {
    Applied(SettingsView),
    UnknownKey,
    BadValue,
}

/// The outcome of writing `v` under `key` to `s`: integers are clamped into
/// their range, the wallpaper address is normalized, a theme must be named
/// exactly, booleans are taken as they are.
pub open spec fn spec_apply_setting(s: SettingsView, key: Seq<char>, v: SettingValueView) -> ApplyOutcome {
    if key == "reminderIntervalMinutes"@ {
        match v.as_i64 {
            Some(n) => ApplyOutcome::Applied(
                SettingsView { reminder_interval_minutes: spec_clamp(n, ranges::INTERVAL), ..s },
            ),
            None => ApplyOutcome::BadValue,
        }
    } else if key == "breakDurationMinutes"@ {
        match v.as_i64 {
            Some(n) => ApplyOutcome::Applied(
                SettingsView { break_duration_minutes: spec_clamp(n, ranges::BREAK_DURATION), ..s },
            ),
            None => ApplyOutcome::BadValue,
        }
    } else if key == "snoozeMinutes"@ {
        match v.as_i64 {
            Some(n) => ApplyOutcome::Applied(
                SettingsView { snooze_minutes: spec_clamp(n, ranges::SNOOZE), ..s },
            ),
            None => ApplyOutcome::BadValue,
        }
    } else if key == "idleThresholdMinutes"@ {
        match v.as_i64 {
            Some(n) => ApplyOutcome::Applied(
                SettingsView { idle_threshold_minutes: spec_clamp(n, ranges::IDLE_THRESHOLD), ..s },
            ),
            None => ApplyOutcome::BadValue,
        }
    } else if key == "autoStartBreakDelaySeconds"@ {
        match v.as_i64 {
            Some(n) => ApplyOutcome::Applied(
                SettingsView {
                    auto_start_break_delay_seconds: spec_clamp(n, ranges::AUTO_START_DELAY),
                    ..s
                },
            ),
            None => ApplyOutcome::BadValue,
        }
    } else if key == "wallpaperImageURLString"@ {
        match v.as_str {
            Some(t) => ApplyOutcome::Applied(
                SettingsView { wallpaper_image_url_string: spec_normalize_url(t), ..s },
            ),
            None => ApplyOutcome::BadValue,
        }
    } else if key == "soundEnabled"@ {
        match v.as_bool {
            Some(b) => ApplyOutcome::Applied(SettingsView { sound_enabled: b, ..s }),
            None => ApplyOutcome::BadValue,
        }
    } else if key == "overlayOtherWindows"@ {
        match v.as_bool {
            Some(b) => ApplyOutcome::Applied(SettingsView { overlay_other_windows: b, ..s }),
            None => ApplyOutcome::BadValue,
        }
    } else if key == "activityBasedTiming"@ {
        match v.as_bool {
            Some(b) => ApplyOutcome::Applied(SettingsView { activity_based_timing: b, ..s }),
            None => ApplyOutcome::BadValue,
        }
    } else if key == "autoStartBreak"@ {
        match v.as_bool {
            Some(b) => ApplyOutcome::Applied(SettingsView { auto_start_break: b, ..s }),
            None => ApplyOutcome::BadValue,
        }
    } else if key == "wallpaperTheme"@ {
        match v.as_str {
            Some(name) => match spec_parse_theme(name) {
                Some(t) => ApplyOutcome::Applied(SettingsView { wallpaper_theme: t, ..s }),
                None => ApplyOutcome::BadValue,
            },
            None => ApplyOutcome::BadValue,
        }
    } else {
        ApplyOutcome::UnknownKey
    }
}

/// Writes one setting by key: the value is read the way the key needs, then
/// clamped or normalized and kept. The window opacity, a floating-point
/// setting, is written by the application and is not among these keys.
pub fn apply_setting(s: &mut Settings, key: &str, value: &SettingValue) -> (res: SetResult)
    ensures
        match spec_apply_setting(old(s)@, key@, value@) {
            ApplyOutcome::Applied(after) => final(s)@ == after && (res matches SetResult::Saved {
                value,
            } && value@ == after),
            ApplyOutcome::UnknownKey => final(s)@ == old(s)@ && res is UnknownKey,
            ApplyOutcome::BadValue => final(s)@ == old(s)@ && res is BadValue,
        },
{
    if str_eq(key, "reminderIntervalMinutes") {
        match value.as_i64 {
            Some(n) => s.reminder_interval_minutes = clamp_i(n, ranges::INTERVAL),
            None => return SetResult::BadValue,
        }
    } else if str_eq(key, "breakDurationMinutes") {
        match value.as_i64 {
            Some(n) => s.break_duration_minutes = clamp_i(n, ranges::BREAK_DURATION),
            None => return SetResult::BadValue,
        }
    } else if str_eq(key, "snoozeMinutes") {
        match value.as_i64 {
            Some(n) => s.snooze_minutes = clamp_i(n, ranges::SNOOZE),
            None => return SetResult::BadValue,
        }
    } else if str_eq(key, "idleThresholdMinutes") {
        match value.as_i64 {
            Some(n) => s.idle_threshold_minutes = clamp_i(n, ranges::IDLE_THRESHOLD),
            None => return SetResult::BadValue,
        }
    } else if str_eq(key, "autoStartBreakDelaySeconds") {
        match value.as_i64 {
            Some(n) => s.auto_start_break_delay_seconds = clamp_i(n, ranges::AUTO_START_DELAY),
            None => return SetResult::BadValue,
        }
    } else if str_eq(key, "wallpaperImageURLString") {
        match &value.as_str {
            Some(t) => s.wallpaper_image_url_string = normalize_url_string(t.as_str()),
            None => return SetResult::BadValue,
        }
    } else if str_eq(key, "soundEnabled") {
        match value.as_bool {
            Some(b) => s.sound_enabled = b,
            None => return SetResult::BadValue,
        }
    } else if str_eq(key, "overlayOtherWindows") {
        match value.as_bool {
            Some(b) => s.overlay_other_windows = b,
            None => return SetResult::BadValue,
        }
    } else if str_eq(key, "activityBasedTiming") {
        match value.as_bool {
            Some(b) => s.activity_based_timing = b,
            None => return SetResult::BadValue,
        }
    } else if str_eq(key, "autoStartBreak") {
        match value.as_bool {
            Some(b) => s.auto_start_break = b,
            None => return SetResult::BadValue,
        }
    } else if str_eq(key, "wallpaperTheme") {
        match &value.as_str {
            Some(name) => match parse_theme(name.as_str()) {
                Some(theme) => s.wallpaper_theme = theme,
                None => return SetResult::BadValue,
            },
            None => return SetResult::BadValue,
        }
    } else {
        return SetResult::UnknownKey;
    }
    SetResult::Saved { value: s.copied() }
}

} // verus!

verus! {

/// The settings as read back from storage, one entry per stored key: `None`
/// when the key is missing or its value is not of the field's kind.
pub struct StoredSettings {
    pub reminder_interval_minutes: Option<i64>,
    pub break_duration_minutes: Option<i64>,
    pub snooze_minutes: Option<i64>,
    pub wallpaper_image_url_string: Option<String>,
    pub wallpaper_theme: Option<String>,
    pub launch_at_login: Option<bool>,
    pub sound_enabled: Option<bool>,
    pub overlay_other_windows: Option<bool>,
    pub activity_based_timing: Option<bool>,
    pub idle_threshold_minutes: Option<i64>,
    pub auto_start_break: Option<bool>,
    pub auto_start_break_delay_seconds: Option<i64>,
    pub app_language: Option<String>,
    pub skipped_update_version: Option<String>,
}

/// Stored settings as plain values.
pub struct StoredView {
    pub reminder_interval_minutes: Option<i64>,
    pub break_duration_minutes: Option<i64>,
    pub snooze_minutes: Option<i64>,
    pub wallpaper_image_url_string: Option<Seq<char>>,
    pub wallpaper_theme: Option<Seq<char>>,
    pub launch_at_login: Option<bool>,
    pub sound_enabled: Option<bool>,
    pub overlay_other_windows: Option<bool>,
    pub activity_based_timing: Option<bool>,
    pub idle_threshold_minutes: Option<i64>,
    pub auto_start_break: Option<bool>,
    pub auto_start_break_delay_seconds: Option<i64>,
    pub app_language: Option<Seq<char>>,
    pub skipped_update_version: Option<Seq<char>>,
}

pub open spec fn opt_text(o: Option<String>) -> Option<Seq<char>> {
    match o {
        Some(t) => Some(t@),
        None => None,
    }
}

impl View for StoredSettings {
    type V = StoredView;

    open spec fn view(&self) -> StoredView {
        StoredView {
            reminder_interval_minutes: self.reminder_interval_minutes,
            break_duration_minutes: self.break_duration_minutes,
            snooze_minutes: self.snooze_minutes,
            wallpaper_image_url_string: opt_text(self.wallpaper_image_url_string),
            wallpaper_theme: opt_text(self.wallpaper_theme),
            launch_at_login: self.launch_at_login,
            sound_enabled: self.sound_enabled,
            overlay_other_windows: self.overlay_other_windows,
            activity_based_timing: self.activity_based_timing,
            idle_threshold_minutes: self.idle_threshold_minutes,
            auto_start_break: self.auto_start_break,
            auto_start_break_delay_seconds: self.auto_start_break_delay_seconds,
            app_language: opt_text(self.app_language),
            skipped_update_version: opt_text(self.skipped_update_version),
        }
    }
}

/// A stored integer if it lies in range, else the fallback.
pub open spec fn int_or(v: Option<i64>, fallback: i64, r: (i64, i64)) -> i64 {
    match v {
        Some(n) => if in_range(n, r) {
            n
        } else {
            fallback
        },
        None => fallback,
    }
}

/// A stored boolean, else the fallback.
pub open spec fn bool_or(v: Option<bool>, fallback: bool) -> bool {
    match v {
        Some(b) => b,
        None => fallback,
    }
}

/// The settings that stored values denote: an integer out of range, a value
/// of the wrong kind, a missing key or an unknown theme name each give the
/// default; the wallpaper address is normalized; the language and the skipped
/// version are taken as stored.
pub open spec fn spec_from_stored(r: StoredView) -> SettingsView {
    let d = default_settings();
    SettingsView {
        reminder_interval_minutes: int_or(
            r.reminder_interval_minutes,
            d.reminder_interval_minutes,
            ranges::INTERVAL,
        ),
        break_duration_minutes: int_or(
            r.break_duration_minutes,
            d.break_duration_minutes,
            ranges::BREAK_DURATION,
        ),
        snooze_minutes: int_or(r.snooze_minutes, d.snooze_minutes, ranges::SNOOZE),
        wallpaper_image_url_string: match r.wallpaper_image_url_string {
            Some(t) => spec_normalize_url(t),
            None => Seq::empty(),
        },
        wallpaper_theme: match r.wallpaper_theme {
            Some(name) => match spec_parse_theme(name) {
                Some(t) => t,
                None => d.wallpaper_theme,
            },
            None => d.wallpaper_theme,
        },
        launch_at_login: bool_or(r.launch_at_login, d.launch_at_login),
        sound_enabled: bool_or(r.sound_enabled, d.sound_enabled),
        overlay_other_windows: bool_or(r.overlay_other_windows, d.overlay_other_windows),
        activity_based_timing: bool_or(r.activity_based_timing, d.activity_based_timing),
        idle_threshold_minutes: int_or(
            r.idle_threshold_minutes,
            d.idle_threshold_minutes,
            ranges::IDLE_THRESHOLD,
        ),
        auto_start_break: bool_or(r.auto_start_break, d.auto_start_break),
        auto_start_break_delay_seconds: int_or(
            r.auto_start_break_delay_seconds,
            d.auto_start_break_delay_seconds,
            ranges::AUTO_START_DELAY,
        ),
        app_language: match r.app_language {
            Some(l) => l,
            None => d.app_language,
        },
        skipped_update_version: match r.skipped_update_version {
            Some(v) => v,
            None => Seq::empty(),
        },
    }
}

fn int_or_exec(v: Option<i64>, fallback: i64, r: (i64, i64)) -> (res: i64)
    ensures
        res == int_or(v, fallback, r),
{
    match v {
        Some(n) => if r.0 <= n && n <= r.1 {
            n
        } else {
            fallback
        },
        None => fallback,
    }
}

fn bool_or_exec(v: Option<bool>, fallback: bool) -> (res: bool)
    ensures
        res == bool_or(v, fallback),
{
    match v {
        Some(b) => b,
        None => fallback,
    }
}

impl Settings {
    /// The settings that stored values denote (see [`spec_from_stored`]): an
    /// invalid stored value falls back to its default rather than being clamped.
    pub fn from_stored(r: &StoredSettings) -> (res: Settings)
        ensures
            res@ == spec_from_stored(r@),
    {
        let d = Settings::default();
        let url = match &r.wallpaper_image_url_string {
            Some(t) => normalize_url_string(t.as_str()),
            None => String::new(),
        };
        let theme = match &r.wallpaper_theme {
            Some(name) => match parse_theme(name.as_str()) {
                Some(t) => t,
                None => d.wallpaper_theme,
            },
            None => d.wallpaper_theme,
        };
        let lang = match &r.app_language {
            Some(l) => l.clone(),
            None => d.app_language.clone(),
        };
        let skipped = match &r.skipped_update_version {
            Some(v) => v.clone(),
            None => String::new(),
        };
        Settings {
            reminder_interval_minutes: int_or_exec(
                r.reminder_interval_minutes,
                d.reminder_interval_minutes,
                ranges::INTERVAL,
            ),
            break_duration_minutes: int_or_exec(
                r.break_duration_minutes,
                d.break_duration_minutes,
                ranges::BREAK_DURATION,
            ),
            snooze_minutes: int_or_exec(r.snooze_minutes, d.snooze_minutes, ranges::SNOOZE),
            wallpaper_image_url_string: url,
            wallpaper_theme: theme,
            launch_at_login: bool_or_exec(r.launch_at_login, d.launch_at_login),
            sound_enabled: bool_or_exec(r.sound_enabled, d.sound_enabled),
            overlay_other_windows: bool_or_exec(r.overlay_other_windows, d.overlay_other_windows),
            activity_based_timing: bool_or_exec(r.activity_based_timing, d.activity_based_timing),
            idle_threshold_minutes: int_or_exec(
                r.idle_threshold_minutes,
                d.idle_threshold_minutes,
                ranges::IDLE_THRESHOLD,
            ),
            auto_start_break: bool_or_exec(r.auto_start_break, d.auto_start_break),
            auto_start_break_delay_seconds: int_or_exec(
                r.auto_start_break_delay_seconds,
                d.auto_start_break_delay_seconds,
                ranges::AUTO_START_DELAY,
            ),
            app_language: lang,
            skipped_update_version: skipped,
        }
    }
}

} // verus!

verus! {

/// Normalizing a wallpaper address twice is normalizing it once: a stored
/// address is already in normal form.
pub proof fn lemma_normalize_url_idempotent(raw: Seq<char>)
    ensures
        spec_normalize_url(spec_normalize_url(raw)) == spec_normalize_url(raw),
{
    let t = spec_trim(raw);
    crate::text::lemma_trim_idempotent(raw);
    if spec_normalize_url(raw).len() > 0 {
        assert(spec_normalize_url(raw) == t);
        assert(spec_trim(t) == t);
    } else {
        assert(spec_trim(Seq::<char>::empty()) =~= Seq::<char>::empty());
    }
}

/// The default settings satisfy every settings rule.
pub proof fn lemma_default_settings_valid()
    ensures
        default_settings().is_valid(),
{
    assert(spec_trim(Seq::<char>::empty()) =~= Seq::<char>::empty());
}

/// Writing a setting keeps every settings rule: written integers land in
/// their range and a written address is in normal form.
pub proof fn lemma_apply_setting_keeps_valid(s: SettingsView, key: Seq<char>, v: SettingValueView)
    requires
        s.is_valid(),
    ensures
        spec_apply_setting(s, key, v) matches ApplyOutcome::Applied(after) ==> after.is_valid(),
{
    if let Some(t) = v.as_str {
        lemma_normalize_url_idempotent(t);
    }
}

/// Whatever was stored, reading it back yields settings that satisfy every
/// settings rule.
pub proof fn lemma_from_stored_valid(r: StoredView)
    ensures
        spec_from_stored(r).is_valid(),
{
    lemma_default_settings_valid();
    if let Some(t) = r.wallpaper_image_url_string {
        lemma_normalize_url_idempotent(t);
    }
}

/// What saving writes for `s`: every field present with its value.
pub open spec fn stored_form(s: SettingsView) -> StoredView {
    StoredView {
        reminder_interval_minutes: Some(s.reminder_interval_minutes),
        break_duration_minutes: Some(s.break_duration_minutes),
        snooze_minutes: Some(s.snooze_minutes),
        wallpaper_image_url_string: Some(s.wallpaper_image_url_string),
        wallpaper_theme: Some(spec_theme_name(s.wallpaper_theme)),
        launch_at_login: Some(s.launch_at_login),
        sound_enabled: Some(s.sound_enabled),
        overlay_other_windows: Some(s.overlay_other_windows),
        activity_based_timing: Some(s.activity_based_timing),
        idle_threshold_minutes: Some(s.idle_threshold_minutes),
        auto_start_break: Some(s.auto_start_break),
        auto_start_break_delay_seconds: Some(s.auto_start_break_delay_seconds),
        app_language: Some(s.app_language),
        skipped_update_version: Some(s.skipped_update_version),
    }
}

/// A theme's stored name reads back as that theme.
pub proof fn lemma_theme_name_roundtrip(t: WallpaperTheme)
    ensures
        spec_parse_theme(spec_theme_name(t)) == Some(t),
{
    reveal_strlit("nature");
    reveal_strlit("cityNight");
    reveal_strlit("minimal");
    reveal_strlit("cartoon");
    assert("nature"@.len() == 6);
    assert("cityNight"@.len() == 9);
    assert("minimal"@.len() == 7);
    assert("cartoon"@.len() == 7);
    assert("minimal"@[0] != "cartoon"@[0]);
}

/// Settings that satisfy the rules survive a save and a load unchanged.
pub proof fn lemma_stored_roundtrip(s: SettingsView)
    requires
        s.is_valid(),
    ensures
        spec_from_stored(stored_form(s)) == s,
{
    lemma_theme_name_roundtrip(s.wallpaper_theme);
}


/// What writing one setting does, key by key: an integer written under a
/// numeric key is clamped into that key's own range (interval 10..=180
/// minutes, break 1..=30, snooze 1..=15, idle threshold 1..=10, auto-start
/// delay 0..=300 seconds) and stored in that setting alone; a boolean key
/// stores the boolean; the wallpaper address is normalized; a theme must be
/// named exactly. A value of the wrong kind is refused and any other key is
/// unknown; every other setting stays as it was.
pub proof fn lemma_apply_setting_by_key(s: SettingsView, key: Seq<char>, v: SettingValueView)
    ensures
        key == "reminderIntervalMinutes"@ ==> spec_apply_setting(s, key, v) == (match v.as_i64 {
            Some(n) => ApplyOutcome::Applied(
                SettingsView {
                    reminder_interval_minutes: if n < 10 {
                        10
                    } else if n > 180 {
                        180
                    } else {
                        n
                    },
                    ..s
                },
            ),
            None => ApplyOutcome::BadValue,
        }),
        key == "breakDurationMinutes"@ ==> spec_apply_setting(s, key, v) == (match v.as_i64 {
            Some(n) => ApplyOutcome::Applied(
                SettingsView {
                    break_duration_minutes: if n < 1 {
                        1
                    } else if n > 30 {
                        30
                    } else {
                        n
                    },
                    ..s
                },
            ),
            None => ApplyOutcome::BadValue,
        }),
        key == "snoozeMinutes"@ ==> spec_apply_setting(s, key, v) == (match v.as_i64 {
            Some(n) => ApplyOutcome::Applied(
                SettingsView {
                    snooze_minutes: if n < 1 {
                        1
                    } else if n > 15 {
                        15
                    } else {
                        n
                    },
                    ..s
                },
            ),
            None => ApplyOutcome::BadValue,
        }),
        key == "idleThresholdMinutes"@ ==> spec_apply_setting(s, key, v) == (match v.as_i64 {
            Some(n) => ApplyOutcome::Applied(
                SettingsView {
                    idle_threshold_minutes: if n < 1 {
                        1
                    } else if n > 10 {
                        10
                    } else {
                        n
                    },
                    ..s
                },
            ),
            None => ApplyOutcome::BadValue,
        }),
        key == "autoStartBreakDelaySeconds"@ ==> spec_apply_setting(s, key, v) == (match v.as_i64 {
            Some(n) => ApplyOutcome::Applied(
                SettingsView {
                    auto_start_break_delay_seconds: if n < 0 {
                        0
                    } else if n > 300 {
                        300
                    } else {
                        n
                    },
                    ..s
                },
            ),
            None => ApplyOutcome::BadValue,
        }),
        key == "soundEnabled"@ ==> spec_apply_setting(s, key, v) == (match v.as_bool {
            Some(b) => ApplyOutcome::Applied(SettingsView { sound_enabled: b, ..s }),
            None => ApplyOutcome::BadValue,
        }),
        key == "overlayOtherWindows"@ ==> spec_apply_setting(s, key, v) == (match v.as_bool {
            Some(b) => ApplyOutcome::Applied(SettingsView { overlay_other_windows: b, ..s }),
            None => ApplyOutcome::BadValue,
        }),
        key == "activityBasedTiming"@ ==> spec_apply_setting(s, key, v) == (match v.as_bool {
            Some(b) => ApplyOutcome::Applied(SettingsView { activity_based_timing: b, ..s }),
            None => ApplyOutcome::BadValue,
        }),
        key == "autoStartBreak"@ ==> spec_apply_setting(s, key, v) == (match v.as_bool {
            Some(b) => ApplyOutcome::Applied(SettingsView { auto_start_break: b, ..s }),
            None => ApplyOutcome::BadValue,
        }),
        key == "wallpaperImageURLString"@ ==> spec_apply_setting(s, key, v) == (match v.as_str {
            Some(t) => ApplyOutcome::Applied(
                SettingsView { wallpaper_image_url_string: spec_normalize_url(t), ..s },
            ),
            None => ApplyOutcome::BadValue,
        }),
        key == "wallpaperTheme"@ ==> spec_apply_setting(s, key, v) == (match v.as_str {
            Some(name) => if name == "nature"@ {
                ApplyOutcome::Applied(SettingsView { wallpaper_theme: WallpaperTheme::Nature, ..s })
            } else if name == "cityNight"@ {
                ApplyOutcome::Applied(SettingsView { wallpaper_theme: WallpaperTheme::CityNight, ..s })
            } else if name == "minimal"@ {
                ApplyOutcome::Applied(SettingsView { wallpaper_theme: WallpaperTheme::Minimal, ..s })
            } else if name == "cartoon"@ {
                ApplyOutcome::Applied(SettingsView { wallpaper_theme: WallpaperTheme::Cartoon, ..s })
            } else {
                ApplyOutcome::BadValue
            },
            None => ApplyOutcome::BadValue,
        }),
        (key != "reminderIntervalMinutes"@ && key != "breakDurationMinutes"@ && key != "snoozeMinutes"@ && key != "idleThresholdMinutes"@ && key != "autoStartBreakDelaySeconds"@ && key != "soundEnabled"@ && key != "overlayOtherWindows"@ && key != "activityBasedTiming"@ && key != "autoStartBreak"@ && key != "wallpaperImageURLString"@ && key != "wallpaperTheme"@) ==> spec_apply_setting(s, key, v) == ApplyOutcome::UnknownKey,
{
    reveal_strlit("reminderIntervalMinutes");
    reveal_strlit("breakDurationMinutes");
    reveal_strlit("snoozeMinutes");
    reveal_strlit("idleThresholdMinutes");
    reveal_strlit("autoStartBreakDelaySeconds");
    reveal_strlit("soundEnabled");
    reveal_strlit("overlayOtherWindows");
    reveal_strlit("activityBasedTiming");
    reveal_strlit("autoStartBreak");
    reveal_strlit("wallpaperImageURLString");
    reveal_strlit("wallpaperTheme");
    // The keys differ pairwise.
    assert("reminderIntervalMinutes"@[0] != "breakDurationMinutes"@[0]);
    assert("reminderIntervalMinutes"@[0] != "snoozeMinutes"@[0]);
    assert("reminderIntervalMinutes"@[0] != "idleThresholdMinutes"@[0]);
    assert("reminderIntervalMinutes"@[0] != "autoStartBreakDelaySeconds"@[0]);
    assert("reminderIntervalMinutes"@[0] != "soundEnabled"@[0]);
    assert("reminderIntervalMinutes"@[0] != "overlayOtherWindows"@[0]);
    assert("reminderIntervalMinutes"@[0] != "activityBasedTiming"@[0]);
    assert("reminderIntervalMinutes"@[0] != "autoStartBreak"@[0]);
    assert("reminderIntervalMinutes"@[0] != "wallpaperImageURLString"@[0]);
    assert("reminderIntervalMinutes"@[0] != "wallpaperTheme"@[0]);
    assert("breakDurationMinutes"@[0] != "snoozeMinutes"@[0]);
    assert("breakDurationMinutes"@[0] != "idleThresholdMinutes"@[0]);
    assert("breakDurationMinutes"@[0] != "autoStartBreakDelaySeconds"@[0]);
    assert("breakDurationMinutes"@[0] != "soundEnabled"@[0]);
    assert("breakDurationMinutes"@[0] != "overlayOtherWindows"@[0]);
    assert("breakDurationMinutes"@[0] != "activityBasedTiming"@[0]);
    assert("breakDurationMinutes"@[0] != "autoStartBreak"@[0]);
    assert("breakDurationMinutes"@[0] != "wallpaperImageURLString"@[0]);
    assert("breakDurationMinutes"@[0] != "wallpaperTheme"@[0]);
    assert("snoozeMinutes"@[0] != "idleThresholdMinutes"@[0]);
    assert("snoozeMinutes"@[0] != "autoStartBreakDelaySeconds"@[0]);
    assert("snoozeMinutes"@[1] != "soundEnabled"@[1]);
    assert("snoozeMinutes"@[0] != "overlayOtherWindows"@[0]);
    assert("snoozeMinutes"@[0] != "activityBasedTiming"@[0]);
    assert("snoozeMinutes"@[0] != "autoStartBreak"@[0]);
    assert("snoozeMinutes"@[0] != "wallpaperImageURLString"@[0]);
    assert("snoozeMinutes"@[0] != "wallpaperTheme"@[0]);
    assert("idleThresholdMinutes"@[0] != "autoStartBreakDelaySeconds"@[0]);
    assert("idleThresholdMinutes"@[0] != "soundEnabled"@[0]);
    assert("idleThresholdMinutes"@[0] != "overlayOtherWindows"@[0]);
    assert("idleThresholdMinutes"@[0] != "activityBasedTiming"@[0]);
    assert("idleThresholdMinutes"@[0] != "autoStartBreak"@[0]);
    assert("idleThresholdMinutes"@[0] != "wallpaperImageURLString"@[0]);
    assert("idleThresholdMinutes"@[0] != "wallpaperTheme"@[0]);
    assert("autoStartBreakDelaySeconds"@[0] != "soundEnabled"@[0]);
    assert("autoStartBreakDelaySeconds"@[0] != "overlayOtherWindows"@[0]);
    assert("autoStartBreakDelaySeconds"@[1] != "activityBasedTiming"@[1]);
    assert("autoStartBreakDelaySeconds"@.len() != "autoStartBreak"@.len());
    assert("autoStartBreakDelaySeconds"@[0] != "wallpaperImageURLString"@[0]);
    assert("autoStartBreakDelaySeconds"@[0] != "wallpaperTheme"@[0]);
    assert("soundEnabled"@[0] != "overlayOtherWindows"@[0]);
    assert("soundEnabled"@[0] != "activityBasedTiming"@[0]);
    assert("soundEnabled"@[0] != "autoStartBreak"@[0]);
    assert("soundEnabled"@[0] != "wallpaperImageURLString"@[0]);
    assert("soundEnabled"@[0] != "wallpaperTheme"@[0]);
    assert("overlayOtherWindows"@[0] != "activityBasedTiming"@[0]);
    assert("overlayOtherWindows"@[0] != "autoStartBreak"@[0]);
    assert("overlayOtherWindows"@[0] != "wallpaperImageURLString"@[0]);
    assert("overlayOtherWindows"@[0] != "wallpaperTheme"@[0]);
    assert("activityBasedTiming"@[1] != "autoStartBreak"@[1]);
    assert("activityBasedTiming"@[0] != "wallpaperImageURLString"@[0]);
    assert("activityBasedTiming"@[0] != "wallpaperTheme"@[0]);
    assert("autoStartBreak"@[0] != "wallpaperImageURLString"@[0]);
    assert("autoStartBreak"@[0] != "wallpaperTheme"@[0]);
    assert("wallpaperImageURLString"@[9] != "wallpaperTheme"@[9]);
}

} // verus!
