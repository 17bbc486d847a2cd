use pause::settings::document::{parse_settings_doc, settings_from_text};
use pause::settings::{
    apply_setting, is_http_url, normalize_url_string, parse_theme, theme_name, SetResult,
    SettingValue, Settings, StoredSettings, Url, WallpaperTheme, DEFAULT_WALLPAPER_URL,
};

fn int_value(n: i64) -> SettingValue {
    SettingValue { as_bool: None, as_i64: Some(n), as_str: None }
}

fn text(t: &str) -> SettingValue {
    SettingValue { as_bool: None, as_i64: None, as_str: Some(t.to_string()) }
}

fn flag(b: bool) -> SettingValue {
    SettingValue { as_bool: Some(b), as_i64: None, as_str: None }
}

fn nothing_stored() -> StoredSettings {
    StoredSettings {
        reminder_interval_minutes: None,
        break_duration_minutes: None,
        snooze_minutes: None,
        wallpaper_image_url_string: None,
        wallpaper_theme: None,
        launch_at_login: None,
        sound_enabled: None,
        overlay_other_windows: None,
        activity_based_timing: None,
        idle_threshold_minutes: None,
        auto_start_break: None,
        auto_start_break_delay_seconds: None,
        app_language: None,
        skipped_update_version: None,
    }
}

#[test]
fn test_settings_defaults() {
    let d = Settings::default();
    assert_eq!(d.reminder_interval_minutes, 45);
    assert_eq!(d.break_duration_minutes, 5);
    assert_eq!(d.snooze_minutes, 5);
    assert_eq!(d.wallpaper_image_url_string, "");
    assert_eq!(d.wallpaper_theme, WallpaperTheme::Nature);
    assert!(d.launch_at_login);
    assert!(d.sound_enabled);
    assert!(!d.overlay_other_windows);
    assert!(d.activity_based_timing);
    assert_eq!(d.idle_threshold_minutes, 2);
    assert!(d.auto_start_break);
    assert_eq!(d.auto_start_break_delay_seconds, 0);
    assert_eq!(d.app_language, "chinese");
}

#[test]
fn test_load_invalid_values_fall_back_to_defaults() {
    let raw = r#"{"reminderIntervalMinutes":5,"breakDurationMinutes":999,"reminderWindowOpacity":0.05,"wallpaperImageURLString":"bad url","appLanguage":"chinese"}"#;
    let s = settings_from_text(raw);
    assert_eq!(s.reminder_interval_minutes, 45);
    assert_eq!(s.break_duration_minutes, 5);
    assert_eq!(s.wallpaper_image_url_string, "");
    assert_eq!(s.app_language, "chinese");
}

#[test]
fn invalid_stored_values_fall_back_per_field() {
    let stored = StoredSettings {
        reminder_interval_minutes: Some(5),
        break_duration_minutes: Some(999),
        wallpaper_image_url_string: Some("bad url".to_string()),
        app_language: Some("chinese".to_string()),
        ..nothing_stored()
    };
    let s = Settings::from_stored(&stored);
    assert_eq!(s.reminder_interval_minutes, 45);
    assert_eq!(s.break_duration_minutes, 5);
    assert_eq!(s.wallpaper_image_url_string, "");
    assert_eq!(s.app_language, "chinese");
}

#[test]
fn unparsable_settings_text_gives_defaults() {
    for raw in ["", "not json", "{\"reminderIntervalMinutes\": 60", "[1, 2"] {
        assert_eq!(settings_from_text(raw), Settings::default(), "{raw}");
        assert!(parse_settings_doc(raw).is_none(), "{raw}");
    }
    // A JSON value that is no object holds no setting: every one is the default.
    assert_eq!(settings_from_text("[60, true]"), Settings::default());
}

#[test]
fn settings_text_values_are_read_by_kind() {
    let raw = r#"{"reminderIntervalMinutes":60,"snoozeMinutes":"7","soundEnabled":false,
        "launchAtLogin":1,"wallpaperTheme":"cityNight","wallpaperImageURLString":" https://a.example/x.jpg ",
        "idleThresholdMinutes":4.5,"appLanguage":"english","skippedUpdateVersion":"2.0.0",
        "autoStartBreakDelaySeconds":300}"#;
    let s = settings_from_text(raw);
    assert_eq!(s.reminder_interval_minutes, 60);
    assert_eq!(s.snooze_minutes, 5); // a string is no integer
    assert!(!s.sound_enabled);
    assert!(s.launch_at_login); // a number is no boolean
    assert_eq!(s.wallpaper_theme, WallpaperTheme::CityNight);
    assert_eq!(s.wallpaper_image_url_string, "https://a.example/x.jpg");
    assert_eq!(s.idle_threshold_minutes, 2); // a float is no integer
    assert_eq!(s.app_language, "english");
    assert_eq!(s.skipped_update_version, "2.0.0");
    assert_eq!(s.auto_start_break_delay_seconds, 300);
    let doc = parse_settings_doc(raw).expect("a JSON document");
    assert_eq!(doc.snooze_minutes, None);
    assert_eq!(doc.reminder_interval_minutes, Some(60));
    assert_eq!(doc.wallpaper_theme.as_deref(), Some("cityNight"));
    assert_eq!(doc.overlay_other_windows, None);
}

#[test]
fn test_wallpaper_url_validation() {
    for good in ["https://images.example.com/photo.jpg", "http://example.com/a.png"] {
        assert!(is_http_url(good), "{good} should be valid");
    }
    for bad in ["", "   ", "ftp://example.com/x", "images.example.com/photo.jpg", "not a url"] {
        assert!(!is_http_url(bad), "{bad} should be invalid");
    }
    assert_eq!(normalize_url_string(DEFAULT_WALLPAPER_URL), "");
    assert_eq!(
        normalize_url_string("  https://images.example.com/p.jpg  "),
        "https://images.example.com/p.jpg"
    );
    assert_eq!(normalize_url_string("bad url"), "");
}

#[test]
fn test_apply_setting_clamps_on_write() {
    let mut s = Settings::default();
    match apply_setting(&mut s, "reminderIntervalMinutes", &int_value(5)) {
        SetResult::Saved { value } => assert_eq!(value.reminder_interval_minutes, 10),
        _ => panic!("expected ok"),
    }
    apply_setting(&mut s, "snoozeMinutes", &int_value(99));
    assert_eq!(s.snooze_minutes, 15);
    apply_setting(&mut s, "autoStartBreakDelaySeconds", &int_value(0));
    assert_eq!(s.auto_start_break_delay_seconds, 0);
    apply_setting(&mut s, "autoStartBreakDelaySeconds", &int_value(-3));
    assert_eq!(s.auto_start_break_delay_seconds, 0);
    apply_setting(&mut s, "autoStartBreakDelaySeconds", &int_value(999));
    assert_eq!(s.auto_start_break_delay_seconds, 300);
    assert!(matches!(apply_setting(&mut s, "noSuchKey", &int_value(1)), SetResult::UnknownKey));
}

#[test]
fn wrong_kind_of_value_changes_nothing() {
    let mut s = Settings::default();
    let before = s.clone();
    assert!(matches!(apply_setting(&mut s, "snoozeMinutes", &flag(true)), SetResult::BadValue));
    assert!(matches!(apply_setting(&mut s, "soundEnabled", &int_value(1)), SetResult::BadValue));
    assert!(matches!(apply_setting(&mut s, "wallpaperTheme", &text("ocean")), SetResult::BadValue));
    assert_eq!(s, before);
    assert!(matches!(apply_setting(&mut s, "launchAtLogin", &flag(false)), SetResult::UnknownKey));
    assert_eq!(s, before);
}

#[test]
fn other_keys_are_written() {
    let mut s = Settings::default();
    apply_setting(&mut s, "soundEnabled", &flag(false));
    apply_setting(&mut s, "overlayOtherWindows", &flag(true));
    apply_setting(&mut s, "activityBasedTiming", &flag(false));
    apply_setting(&mut s, "autoStartBreak", &flag(false));
    apply_setting(&mut s, "wallpaperTheme", &text("cityNight"));
    apply_setting(&mut s, "breakDurationMinutes", &int_value(0));
    apply_setting(&mut s, "idleThresholdMinutes", &int_value(11));
    apply_setting(&mut s, "wallpaperImageURLString", &text(" https://x.example/a.jpg "));
    assert!(!s.sound_enabled && s.overlay_other_windows && !s.activity_based_timing);
    assert!(!s.auto_start_break);
    assert_eq!(s.wallpaper_theme, WallpaperTheme::CityNight);
    assert_eq!(s.break_duration_minutes, 1);
    assert_eq!(s.idle_threshold_minutes, 10);
    assert_eq!(s.wallpaper_image_url_string, "https://x.example/a.jpg");
}

#[test]
fn saved_settings_read_back_unchanged() {
    let mut s = Settings::default();
    apply_setting(&mut s, "reminderIntervalMinutes", &int_value(500));
    apply_setting(&mut s, "wallpaperTheme", &text("minimal"));
    apply_setting(&mut s, "wallpaperImageURLString", &text("http://a.example/b"));
    let stored = StoredSettings {
        reminder_interval_minutes: Some(s.reminder_interval_minutes),
        break_duration_minutes: Some(s.break_duration_minutes),
        snooze_minutes: Some(s.snooze_minutes),
        wallpaper_image_url_string: Some(s.wallpaper_image_url_string.clone()),
        wallpaper_theme: Some(theme_name(s.wallpaper_theme).to_string()),
        launch_at_login: Some(s.launch_at_login),
        sound_enabled: Some(s.sound_enabled),
        overlay_other_windows: Some(s.overlay_other_windows),
        activity_based_timing: Some(s.activity_based_timing),
        idle_threshold_minutes: Some(s.idle_threshold_minutes),
        auto_start_break: Some(s.auto_start_break),
        auto_start_break_delay_seconds: Some(s.auto_start_break_delay_seconds),
        app_language: Some(s.app_language.clone()),
        skipped_update_version: Some(s.skipped_update_version.clone()),
    };
    assert_eq!(Settings::from_stored(&stored), s);
    assert_eq!(Settings::from_stored(&nothing_stored()), Settings::default());
}

#[test]
fn normalizing_twice_is_normalizing_once() {
    for raw in ["  https://a.example/x ", "bad", "", "http://", DEFAULT_WALLPAPER_URL] {
        let once = normalize_url_string(raw);
        assert_eq!(normalize_url_string(&once), once);
    }
    assert_eq!(normalize_url_string("http://"), "");
    assert_eq!(normalize_url_string("\u{3000}http://h/\t"), "http://h/");
}

#[test]
fn url_parts() {
    let url = Url::parse("HTTPS://user@example.com:8080/path?q#f").unwrap();
    assert_eq!(url.scheme(), "https");
    assert_eq!(url.host_str(), Some("example.com:8080"));
    let bare = Url::parse("http://host").unwrap();
    assert_eq!(bare.host_str(), Some("host"));
    assert!(Url::parse("no scheme here").is_err());
    assert!(!is_http_url("https:///path"));
    assert!(is_http_url("HTTP://Example.com"));
}

#[test]
fn theme_names_read_back() {
    for t in [
        WallpaperTheme::Nature,
        WallpaperTheme::CityNight,
        WallpaperTheme::Minimal,
        WallpaperTheme::Cartoon,
    ] {
        assert_eq!(parse_theme(theme_name(t)), Some(t));
    }
    assert_eq!(parse_theme("Nature"), None);
    assert_eq!(WallpaperTheme::default(), WallpaperTheme::Nature);
}
