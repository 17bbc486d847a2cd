use pause::l10n::{strings, strings_map, tf, tr, Lang};

#[test]
fn test_full_dictionary_count() {
    let table = strings();
    assert_eq!(table.len(), 69);
    for (k, (zh, en)) in table {
        assert!(!k.is_empty() && !zh.is_empty() && !en.is_empty());
    }
}

#[test]
fn test_templates_format() {
    assert_eq!(tf(Lang::Chinese, "minutes", &[("m", "45".into())]), "45 分钟");
    assert_eq!(tf(Lang::English, "seconds", &[("s", "9".into())]), "9s");
    assert_eq!(
        tf(Lang::Chinese, "reminderStartIn", &[("s", "9".into())]),
        "开始休息（9 秒）"
    );
    assert_eq!(
        tf(Lang::English, "reminderStartIn", &[("s", "9".into())]),
        "Start Break (9s)"
    );
    assert_eq!(
        tf(Lang::English, "statusBreaking", &[("m", "3".into())]),
        "On break · 3 min left"
    );
    assert_eq!(
        tf(Lang::Chinese, "statusBreaking", &[("m", "3".into())]),
        "休息中 · 剩余 3 分钟"
    );
}

#[test]
fn test_default_language_is_chinese() {
    assert_eq!(Lang::parse(""), Lang::Chinese);
    assert_eq!(Lang::parse("english"), Lang::English);
    assert_eq!(tr(Lang::English, "appName"), "Pause");
    assert_eq!(tr(Lang::Chinese, "appName"), "休一下");
    assert_eq!(tr(Lang::Chinese, "noCountdown"), "立即");
    assert_eq!(tr(Lang::English, "noCountdown"), "Immediately");
}

#[test]
fn test_maps_cover_all_keys() {
    let m: std::collections::BTreeMap<String, String> = strings_map(Lang::Chinese).into_iter().collect();
    assert_eq!(m.len(), 69);
    assert!(m.contains_key("noCountdown"));
    assert!(m.contains_key("windowOpacityHint"));
    assert!(m.contains_key("switchWallpaperLoading"));
    assert!(m.contains_key("updateNow"));
    assert!(m.contains_key("updateFromGithub"));
}

#[test]
fn storage_key_reads_back_as_same_language() {
    for lang in [Lang::English, Lang::Chinese] {
        assert_eq!(Lang::parse(lang.storage_key()), lang);
    }
    assert_eq!(Lang::English.storage_key(), "english");
    assert_eq!(Lang::Chinese.storage_key(), "chinese");
    assert_eq!(Lang::parse("English"), Lang::Chinese);
}

#[test]
fn unknown_key_is_returned_as_is() {
    assert_eq!(tr(Lang::English, "noSuchKey"), "noSuchKey");
    assert_eq!(tf(Lang::Chinese, "noSuchKey", &[("m", "1".into())]), "noSuchKey");
}

#[test]
fn tf_without_params_is_tr_and_fills_every_occurrence() {
    assert_eq!(tf(Lang::English, "minutes", &[]), tr(Lang::English, "minutes"));
    assert_eq!(tr(Lang::English, "minutes"), "{m} min");
    assert_eq!(
        tf(Lang::English, "updateAvailable", &[("v", "1.2.3".into())]),
        "New version 1.2.3 available"
    );
    assert_eq!(
        tf(Lang::English, "updateDownloading", &[("p", "40".into()), ("x", "1".into())]),
        "Downloading… 40%"
    );
}

#[test]
fn map_in_english_follows_table_order() {
    let m = strings_map(Lang::English);
    assert_eq!(m[0], ("appName".to_string(), "Pause".to_string()));
    assert_eq!(m[68], ("breakSkip".to_string(), "End Early".to_string()));
}
