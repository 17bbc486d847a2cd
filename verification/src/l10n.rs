//! Interface language and the built-in bilingual string table.
//!
//! The table is the single source of every user-visible text: the tray menu and
//! the web front end both take their words from here. Templated entries carry
//! `{name}` placeholders that [`tf`] fills in.

use crate::text::{push_char, replace, replace_all, str_eq};
use vstd::prelude::*;

verus! {

/// Interface language.
#[derive(Debug, Clone, Copy, PartialEq, Eq, Structural)]
pub enum Lang {
    English,
    Chinese,
}

/// The key under which a language is persisted.
pub open spec fn spec_storage_key(lang: Lang) -> Seq<char> {
    match lang {
        Lang::English => "english"@,
        Lang::Chinese => "chinese"@,
    }
}

/// The language a stored key names: English only for `"english"`, Chinese otherwise.
pub open spec fn spec_parse_lang(s: Seq<char>) -> Lang {
    if s == "english"@ {
        Lang::English
    } else {
        Lang::Chinese
    }
}

impl Lang {
    /// Reads a stored language key; anything but `"english"` (including an
    /// empty or unknown key) falls back to Chinese.
    pub fn parse(s: &str) -> (res: Lang)
        ensures
            res == spec_parse_lang(s@),
    {
        if str_eq(s, "english") {
            Lang::English
        } else {
            Lang::Chinese
        }
    }

    /// The key under which the language is persisted.
    pub fn storage_key(self) -> (res: &'static str)
        ensures
            res@ == spec_storage_key(self),
    {
        match self {
            Lang::English => "english",
            Lang::Chinese => "chinese",
        }
    }
}

/// One table entry as plain text: key, then (Chinese, English).
pub type EntryText = (Seq<char>, (Seq<char>, Seq<char>));

/// One executable table entry.
pub type Entry = (&'static str, (&'static str, &'static str));

pub open spec fn entry_text(e: Entry) -> EntryText {
    (e.0@, (e.1.0@, e.1.1@))
}

/// The built-in table, in order.
pub open spec fn table() -> Seq<EntryText> {
    seq![
        ("appName"@, ("休一下"@, "Pause"@)),
        ("settingsTitle"@, ("设置"@, "Settings"@)),
        ("sectionGeneral"@, ("通用"@, "General"@)),
        ("languageLabel"@, ("语言"@, "Language"@)),
        ("versionLabel"@, ("版本"@, "Version"@)),
        ("sectionReminder"@, ("提醒"@, "Reminders"@)),
        ("intervalLabel"@, ("每隔"@, "Remind every"@)),
        ("minutes"@, ("{m} 分钟"@, "{m} min"@)),
        ("customMinutes"@, ("{m} 分钟（自定义）"@, "{m} min (custom)"@)),
        ("customIntervalText"@, ("自定义间隔：{m} 分钟"@, "Custom interval: {m} min"@)),
        ("breakDurationLabel"@, ("休息时长"@, "Break duration"@)),
        ("breakDurationText"@, ("休息时长：{m} 分钟"@, "Break duration: {m} min"@)),
        ("snoozeDurationLabel"@, ("延迟休息时间"@, "Delay break for"@)),
        ("snoozeCustomPrefix"@, ("自定义"@, "Custom"@)),
        ("snoozeCustomUnit"@, ("分钟"@, "min"@)),
        ("snoozeCaption"@, ("提醒弹出后点「延迟休息」可推迟下一次提醒。"@, "\"Delay break\" postpones the reminder when it pops up."@)),
        ("usageTimingLabel"@, ("按真实使用时间计时"@, "Count actual usage time"@)),
        ("usageTimingHint"@, ("开启后仅在有键鼠使用时累计倒计时；离开电脑、显示器睡眠或系统睡眠期间自动暂停，累计真实使用满间隔才提醒，而不是固定时间一到就提醒。"@, "The timer counts only while you're actively using the computer (keyboard/mouse input). It pauses while you're away, the display sleeps, or the system sleeps — so you get reminded only after real usage fills the interval."@)),
        ("idleThresholdLabel"@, ("离开判定"@, "Consider away after"@)),
        ("autoStartBreakLabel"@, ("自动开始休息"@, "Auto-start break"@)),
        ("autoStartBreakDelayLabel"@, ("自动倒计时"@, "Countdown"@)),
        ("noCountdown"@, ("立即"@, "Immediately"@)),
        ("autoStartBreakHint"@, ("提醒弹出后开始倒计时，期间无操作则自动进入休息；随时仍可点「延迟休息」或「开始休息」。"@, "When a reminder pops up, a countdown starts; if you do nothing, the break begins automatically. You can still delay or start it manually."@)),
        ("seconds"@, ("{s} 秒"@, "{s}s"@)),
        ("sectionWallpaper"@, ("图片"@, "Wallpaper"@)),
        ("switchWallpaper"@, ("切换图片"@, "Switch Image"@)),
        ("switchWallpaperLoading"@, ("获取新图中…"@, "Fetching new image…"@)),
        ("sectionSystem"@, ("系统"@, "System"@)),
        ("launchAtLoginLabel"@, ("开机自动启动"@, "Launch at login"@)),
        ("soundLabel"@, ("提醒时播放轻提示音"@, "Play a gentle sound on reminders"@)),
        ("overlayLabel"@, ("提醒时覆盖其他窗口"@, "Reminders overlay other windows"@)),
        ("checkUpdate"@, ("检查更新"@, "Check for Updates"@)),
        ("updateChecking"@, ("正在检查…"@, "Checking…"@)),
        ("upToDate"@, ("已是最新版本"@, "You're up to date"@)),
        ("updateCheckFailed"@, ("检查更新失败，请稍后重试"@, "Update check failed, try again later"@)),
        ("updateAvailable"@, ("发现新版本 {v}"@, "New version {v} available"@)),
        ("updateNow"@, ("立即更新"@, "Update Now"@)),
        ("updateFromGithub"@, ("前往 GitHub 下载"@, "Get it from GitHub"@)),
        ("updateGithubOnlyHint"@, ("此版本暂不支持应用内更新，请从 GitHub 下载安装。"@, "In-app update unavailable for this version — please download from GitHub."@)),
        ("updateDownloading"@, ("下载中… {p}%"@, "Downloading… {p}%"@)),
        ("updateInstalling"@, ("安装完成，即将重启…"@, "Installed — restarting…"@)),
        ("skipUpdateVersion"@, ("暂不提醒（本版本）"@, "Skip this version"@)),
        ("updateLater"@, ("稍后再说"@, "Later"@)),
        ("sectionWindow"@, ("提醒窗口"@, "Reminder Window"@)),
        ("windowOpacityLabel"@, ("窗口透明度"@, "Window opacity"@)),
        ("windowOpacityHint"@, ("数值越低窗口越通透，可隐约看到桌面；提醒窗口显示时修改立即生效。"@, "Lower values make the window more translucent. Changes apply immediately while a reminder is showing."@)),
        ("menuBreakNow"@, ("立即休息"@, "Break Now"@)),
        ("menuPause"@, ("暂停提醒"@, "Pause Reminders"@)),
        ("menuResume"@, ("继续提醒"@, "Resume Reminders"@)),
        ("menuSettings"@, ("设置…"@, "Settings…"@)),
        ("menuQuit"@, ("退出 休一下"@, "Quit Pause"@)),
        ("statusWaiting"@, ("休息时间到，等待合适时机弹出…"@, "Break is due — waiting for the right moment…"@)),
        ("statusIdle"@, ("未检测到使用 · 计时已暂停"@, "No activity detected — timer paused"@)),
        ("statusNextBreak"@, ("下次休息：{m} 分钟后"@, "Next break in {m} min"@)),
        ("statusSnoozed"@, ("已延迟休息：{m} 分钟后再次提醒"@, "Delayed — reminds again in {m} min"@)),
        ("statusReminding"@, ("该休息一下了"@, "Time for a break"@)),
        ("statusBreaking"@, ("休息中 · 剩余 {m} 分钟"@, "On break · {m} min left"@)),
        ("statusBreakingShort"@, ("休息中"@, "On break"@)),
        ("statusPaused"@, ("提醒已暂停"@, "Reminders paused"@)),
        ("reminderTitle"@, ("该让眼睛休息一下了"@, "Time to rest your eyes"@)),
        ("reminderSubtitle"@, ("看看远处，活动一下身体"@, "Look into the distance and stretch a little"@)),
        ("reminderBreakFor"@, ("休息 {t}"@, "Break for {t}"@)),
        ("reminderDelay"@, ("延迟休息 {m} 分钟"@, "Delay {m} min"@)),
        ("reminderStart"@, ("开始休息"@, "Start Break"@)),
        ("reminderStartIn"@, ("开始休息（{s} 秒）"@, "Start Break ({s}s)"@)),
        ("breakTitle"@, ("看看窗外吧"@, "Look out the window"@)),
        ("breakHint"@, ("站起来活动一下"@, "Stand up and move around"@)),
        ("breakAlmostDone"@, ("休息结束，欢迎回来"@, "Break over — welcome back"@)),
        ("breakSkip"@, ("提前结束"@, "End Early"@))
    ]
}

/// The built-in table (key, (Chinese, English)), in order.
pub fn strings() -> (v: Vec<Entry>)
    ensures
        v@.len() == table().len(),
        forall|i: int| 0 <= i < v@.len() ==> entry_text(#[trigger] v@[i]) == table()[i],
{
    let mut v: Vec<Entry> = Vec::new();
    v.push(("appName", ("休一下", "Pause")));
    v.push(("settingsTitle", ("设置", "Settings")));
    v.push(("sectionGeneral", ("通用", "General")));
    v.push(("languageLabel", ("语言", "Language")));
    v.push(("versionLabel", ("版本", "Version")));
    v.push(("sectionReminder", ("提醒", "Reminders")));
    v.push(("intervalLabel", ("每隔", "Remind every")));
    v.push(("minutes", ("{m} 分钟", "{m} min")));
    v.push(("customMinutes", ("{m} 分钟（自定义）", "{m} min (custom)")));
    v.push(("customIntervalText", ("自定义间隔：{m} 分钟", "Custom interval: {m} min")));
    v.push(("breakDurationLabel", ("休息时长", "Break duration")));
    v.push(("breakDurationText", ("休息时长：{m} 分钟", "Break duration: {m} min")));
    v.push(("snoozeDurationLabel", ("延迟休息时间", "Delay break for")));
    v.push(("snoozeCustomPrefix", ("自定义", "Custom")));
    v.push(("snoozeCustomUnit", ("分钟", "min")));
    v.push(("snoozeCaption", ("提醒弹出后点「延迟休息」可推迟下一次提醒。", "\"Delay break\" postpones the reminder when it pops up.")));
    v.push(("usageTimingLabel", ("按真实使用时间计时", "Count actual usage time")));
    v.push(("usageTimingHint", ("开启后仅在有键鼠使用时累计倒计时；离开电脑、显示器睡眠或系统睡眠期间自动暂停，累计真实使用满间隔才提醒，而不是固定时间一到就提醒。", "The timer counts only while you're actively using the computer (keyboard/mouse input). It pauses while you're away, the display sleeps, or the system sleeps — so you get reminded only after real usage fills the interval.")));
    v.push(("idleThresholdLabel", ("离开判定", "Consider away after")));
    v.push(("autoStartBreakLabel", ("自动开始休息", "Auto-start break")));
    v.push(("autoStartBreakDelayLabel", ("自动倒计时", "Countdown")));
    v.push(("noCountdown", ("立即", "Immediately")));
    v.push(("autoStartBreakHint", ("提醒弹出后开始倒计时，期间无操作则自动进入休息；随时仍可点「延迟休息」或「开始休息」。", "When a reminder pops up, a countdown starts; if you do nothing, the break begins automatically. You can still delay or start it manually.")));
    v.push(("seconds", ("{s} 秒", "{s}s")));
    v.push(("sectionWallpaper", ("图片", "Wallpaper")));
    v.push(("switchWallpaper", ("切换图片", "Switch Image")));
    v.push(("switchWallpaperLoading", ("获取新图中…", "Fetching new image…")));
    v.push(("sectionSystem", ("系统", "System")));
    v.push(("launchAtLoginLabel", ("开机自动启动", "Launch at login")));
    v.push(("soundLabel", ("提醒时播放轻提示音", "Play a gentle sound on reminders")));
    v.push(("overlayLabel", ("提醒时覆盖其他窗口", "Reminders overlay other windows")));
    v.push(("checkUpdate", ("检查更新", "Check for Updates")));
    v.push(("updateChecking", ("正在检查…", "Checking…")));
    v.push(("upToDate", ("已是最新版本", "You're up to date")));
    v.push(("updateCheckFailed", ("检查更新失败，请稍后重试", "Update check failed, try again later")));
    v.push(("updateAvailable", ("发现新版本 {v}", "New version {v} available")));
    v.push(("updateNow", ("立即更新", "Update Now")));
    v.push(("updateFromGithub", ("前往 GitHub 下载", "Get it from GitHub")));
    v.push(("updateGithubOnlyHint", ("此版本暂不支持应用内更新，请从 GitHub 下载安装。", "In-app update unavailable for this version — please download from GitHub.")));
    v.push(("updateDownloading", ("下载中… {p}%", "Downloading… {p}%")));
    v.push(("updateInstalling", ("安装完成，即将重启…", "Installed — restarting…")));
    v.push(("skipUpdateVersion", ("暂不提醒（本版本）", "Skip this version")));
    v.push(("updateLater", ("稍后再说", "Later")));
    v.push(("sectionWindow", ("提醒窗口", "Reminder Window")));
    v.push(("windowOpacityLabel", ("窗口透明度", "Window opacity")));
    v.push(("windowOpacityHint", ("数值越低窗口越通透，可隐约看到桌面；提醒窗口显示时修改立即生效。", "Lower values make the window more translucent. Changes apply immediately while a reminder is showing.")));
    v.push(("menuBreakNow", ("立即休息", "Break Now")));
    v.push(("menuPause", ("暂停提醒", "Pause Reminders")));
    v.push(("menuResume", ("继续提醒", "Resume Reminders")));
    v.push(("menuSettings", ("设置…", "Settings…")));
    v.push(("menuQuit", ("退出 休一下", "Quit Pause")));
    v.push(("statusWaiting", ("休息时间到，等待合适时机弹出…", "Break is due — waiting for the right moment…")));
    v.push(("statusIdle", ("未检测到使用 · 计时已暂停", "No activity detected — timer paused")));
    v.push(("statusNextBreak", ("下次休息：{m} 分钟后", "Next break in {m} min")));
    v.push(("statusSnoozed", ("已延迟休息：{m} 分钟后再次提醒", "Delayed — reminds again in {m} min")));
    v.push(("statusReminding", ("该休息一下了", "Time for a break")));
    v.push(("statusBreaking", ("休息中 · 剩余 {m} 分钟", "On break · {m} min left")));
    v.push(("statusBreakingShort", ("休息中", "On break")));
    v.push(("statusPaused", ("提醒已暂停", "Reminders paused")));
    v.push(("reminderTitle", ("该让眼睛休息一下了", "Time to rest your eyes")));
    v.push(("reminderSubtitle", ("看看远处，活动一下身体", "Look into the distance and stretch a little")));
    v.push(("reminderBreakFor", ("休息 {t}", "Break for {t}")));
    v.push(("reminderDelay", ("延迟休息 {m} 分钟", "Delay {m} min")));
    v.push(("reminderStart", ("开始休息", "Start Break")));
    v.push(("reminderStartIn", ("开始休息（{s} 秒）", "Start Break ({s}s)")));
    v.push(("breakTitle", ("看看窗外吧", "Look out the window")));
    v.push(("breakHint", ("站起来活动一下", "Stand up and move around")));
    v.push(("breakAlmostDone", ("休息结束，欢迎回来", "Break over — welcome back")));
    v.push(("breakSkip", ("提前结束", "End Early")));
    assert(v@.map_values(|e: Entry| entry_text(e)) =~= table());
    proof {
        assert forall|i: int| 0 <= i < v@.len() implies entry_text(#[trigger] v@[i]) == table()[i] by {
            assert(v@.map_values(|e: Entry| entry_text(e))[i] == entry_text(v@[i]));
        }
    }
    v
}

/// The text of `key` in the first entry of `t` that has it.
pub open spec fn lookup(t: Seq<EntryText>, key: Seq<char>) -> Option<(Seq<char>, Seq<char>)>
    decreases t.len(),
{
    if t.len() == 0 {
        None
    } else if t[0].0 == key {
        Some(t[0].1)
    } else {
        lookup(t.drop_first(), key)
    }
}

/// The text of a (Chinese, English) pair in `lang`.
pub open spec fn in_lang(lang: Lang, pair: (Seq<char>, Seq<char>)) -> Seq<char> {
    match lang {
        Lang::Chinese => pair.0,
        Lang::English => pair.1,
    }
}

/// The raw (placeholder-bearing) text of `key`; the key itself when the table lacks it.
pub open spec fn spec_tr(lang: Lang, key: Seq<char>) -> Seq<char> {
    match lookup(table(), key) {
        Some(pair) => in_lang(lang, pair),
        None => key,
    }
}

/// The placeholder `{name}`.
pub open spec fn placeholder(name: Seq<char>) -> Seq<char> {
    seq!['{'] + name + seq!['}']
}

/// `text` with each parameter's placeholder replaced by its value, the
/// parameters taken in order.
pub open spec fn fill(text: Seq<char>, params: Seq<(Seq<char>, Seq<char>)>) -> Seq<char>
    decreases params.len(),
{
    if params.len() == 0 {
        text
    } else {
        fill(replace_all(text, placeholder(params[0].0), params[0].1), params.drop_first())
    }
}

/// The parameters of [`tf`] as plain text.
pub open spec fn params_text(params: Seq<(&str, String)>) -> Seq<(Seq<char>, Seq<char>)> {
    params.map_values(|p: (&str, String)| (p.0@, p.1@))
}

/// The raw text of `key` in `lang` (placeholders left in place); the key
/// itself when the table has no such entry.
pub fn tr(lang: Lang, key: &str) -> (res: String)
    ensures
        res@ == spec_tr(lang, key@),
{
    let table_v = strings();
    let mut i: usize = 0;
    assert(table().skip(0) =~= table());
    while i < table_v.len()
        invariant
            table_v@.len() == table().len(),
            forall|j: int| 0 <= j < table_v@.len() ==> entry_text(#[trigger] table_v@[j]) == table()[j],
            i <= table_v.len(),
            lookup(table(), key@) == lookup(table().skip(i as int), key@),
        decreases table_v.len() - i,
    {
        let e = table_v[i];
        assert(entry_text(table_v@[i as int]) == table()[i as int]);
        assert(table().skip(i as int)[0] == table()[i as int]);
        assert(table().skip(i as int).drop_first() =~= table().skip(i + 1));
        if str_eq(e.0, key) {
            let text = match lang {
                Lang::Chinese => e.1.0,
                Lang::English => e.1.1,
            };
            return text.to_owned();
        }
        i = i + 1;
    }
    assert(table().skip(i as int) =~= Seq::<EntryText>::empty());
    key.to_owned()
}

/// The text of `key` in `lang` with every `{name}` placeholder replaced by
/// its value, for each `(name, value)` in order.
pub fn tf(lang: Lang, key: &str, params: &[(&str, String)]) -> (res: String)
    ensures
        res@ == fill(spec_tr(lang, key@), params_text(params@)),
{
    let mut out = tr(lang, key);
    let mut i: usize = 0;
    assert(params_text(params@).skip(0) =~= params_text(params@));
    while i < params.len()
        invariant
            i <= params@.len(),
            fill(spec_tr(lang, key@), params_text(params@)) == fill(
                out@,
                params_text(params@).skip(i as int),
            ),
        decreases params.len() - i,
    {
        let name = params[i].0;
        let value = &params[i].1;
        let mut pat = String::new();
        push_char(&mut pat, '{');
        pat.append(name);
        push_char(&mut pat, '}');
        assert(pat@ =~= placeholder(name@));
        let ghost ps = params_text(params@).skip(i as int);
        assert(ps[0] == (name@, value@));
        assert(ps.drop_first() =~= params_text(params@).skip(i + 1));
        out = replace(out.as_str(), pat.as_str(), value.as_str());
        i = i + 1;
    }
    assert(params_text(params@).skip(i as int) =~= Seq::<(Seq<char>, Seq<char>)>::empty());
    out
}

/// The whole table in `lang`, as (key, text) pairs in table order, no key
/// twice; the front end receives it in full whenever the language changes.
pub fn strings_map(lang: Lang) -> (res: Vec<(String, String)>)
    ensures
        res@.len() == table().len(),
        forall|i: int|
            0 <= i < res@.len() ==> (#[trigger] res@[i]).0@ == table()[i].0 && res@[i].1@
                == in_lang(lang, table()[i].1),
        forall|i: int, j: int|
            0 <= i < j < res@.len() ==> (#[trigger] res@[i]).0@ != (#[trigger] res@[j]).0@,
{
    proof {
        lemma_table_keys_distinct();
    }
    let table_v = strings();
    let mut out: Vec<(String, String)> = Vec::new();
    let mut i: usize = 0;
    while i < table_v.len()
        invariant
            table_v@.len() == table().len(),
            forall|j: int| 0 <= j < table_v@.len() ==> entry_text(#[trigger] table_v@[j]) == table()[j],
            i <= table_v.len(),
            out@.len() == i,
            forall|j: int|
                0 <= j < i ==> (#[trigger] out@[j]).0@ == table()[j].0 && out@[j].1@ == in_lang(
                    lang,
                    table()[j].1,
                ),
        decreases table_v.len() - i,
    {
        let e = table_v[i];
        assert(entry_text(table_v@[i as int]) == table()[i as int]);
        let text = match lang {
            Lang::Chinese => e.1.0,
            Lang::English => e.1.1,
        };
        out.push((e.0.to_owned(), text.to_owned()));
        i = i + 1;
    }
    out
}

} // verus!

verus! {

/// A language's storage key reads back as that language.
pub proof fn lemma_storage_key_roundtrip(lang: Lang)
    ensures
        spec_parse_lang(spec_storage_key(lang)) == lang,
{
    reveal_strlit("english");
    reveal_strlit("chinese");
    assert("english"@[0] != "chinese"@[0]);
}

/// With no parameters, the formatted text is the raw text.
pub proof fn lemma_fill_without_params(text: Seq<char>)
    ensures
        fill(text, Seq::empty()) == text,
{
}

} // verus!



verus! {

/// Length, fifth character and last character of a text (of at least seven
/// characters): enough to tell the table's keys apart.
pub open spec fn key_signature(s: Seq<char>) -> (int, char, char) {
    (s.len() as int, s[4], s[s.len() - 1])
}

/// The table position of the key with signature `g`; -1 for any other signature.
pub open spec fn signature_position(g: (int, char, char)) -> int {
    if g == (7int, 'a', 'e') {
        0
    } else if g == (13int, 'i', 'e') {
        1
    } else if g == (14int, 'i', 'l') {
        2
    } else if g == (13int, 'u', 'l') {
        3
    } else if g == (12int, 'i', 'l') {
        4
    } else if g == (15int, 'i', 'r') {
        5
    } else if g == (13int, 'r', 'l') {
        6
    } else if g == (7int, 't', 's') {
        7
    } else if g == (13int, 'o', 's') {
        8
    } else if g == (18int, 'o', 't') {
        9
    } else if g == (18int, 'k', 'l') {
        10
    } else if g == (17int, 'k', 't') {
        11
    } else if g == (19int, 'z', 'l') {
        12
    } else if g == (18int, 'z', 'x') {
        13
    } else if g == (16int, 'z', 't') {
        14
    } else if g == (13int, 'z', 'n') {
        15
    } else if g == (16int, 'e', 'l') {
        16
    } else if g == (15int, 'e', 't') {
        17
    } else if g == (18int, 'T', 'l') {
        18
    } else if g == (19int, 'S', 'l') {
        19
    } else if g == (24int, 'S', 'l') {
        20
    } else if g == (11int, 'u', 'n') {
        21
    } else if g == (18int, 'S', 't') {
        22
    } else if g == (7int, 'n', 's') {
        23
    } else if g == (16int, 'i', 'r') {
        24
    } else if g == (15int, 'c', 'r') {
        25
    } else if g == (22int, 'c', 'g') {
        26
    } else if g == (13int, 'i', 'm') {
        27
    } else if g == (18int, 'c', 'l') {
        28
    } else if g == (10int, 'd', 'l') {
        29
    } else if g == (12int, 'l', 'l') {
        30
    } else if g == (11int, 'k', 'e') {
        31
    } else if g == (14int, 't', 'g') {
        32
    } else if g == (8int, 'D', 'e') {
        33
    } else if g == (17int, 't', 'd') {
        34
    } else if g == (15int, 't', 'e') {
        35
    } else if g == (9int, 't', 'w') {
        36
    } else if g == (16int, 't', 'b') {
        37
    } else if g == (20int, 't', 't') {
        38
    } else if g == (17int, 't', 'g') {
        39
    } else if g == (16int, 't', 'g') {
        40
    } else if g == (17int, 'U', 'n') {
        41
    } else if g == (11int, 't', 'r') {
        42
    } else if g == (13int, 'i', 'w') {
        43
    } else if g == (18int, 'o', 'l') {
        44
    } else if g == (17int, 'o', 't') {
        45
    } else if g == (12int, 'B', 'w') {
        46
    } else if g == (9int, 'P', 'e') {
        47
    } else if g == (10int, 'R', 'e') {
        48
    } else if g == (12int, 'S', 's') {
        49
    } else if g == (8int, 'Q', 't') {
        50
    } else if g == (13int, 'u', 'g') {
        51
    } else if g == (10int, 'u', 'e') {
        52
    } else if g == (15int, 'u', 'k') {
        53
    } else if g == (13int, 'u', 'd') {
        54
    } else if g == (15int, 'u', 'g') {
        55
    } else if g == (14int, 'u', 'g') {
        56
    } else if g == (19int, 'u', 't') {
        57
    } else if g == (12int, 'u', 'd') {
        58
    } else if g == (13int, 'n', 'e') {
        59
    } else if g == (16int, 'n', 'e') {
        60
    } else if g == (16int, 'n', 'r') {
        61
    } else if g == (13int, 'n', 'y') {
        62
    } else if g == (13int, 'n', 't') {
        63
    } else if g == (15int, 'n', 'n') {
        64
    } else if g == (10int, 'k', 'e') {
        65
    } else if g == (9int, 'k', 't') {
        66
    } else if g == (15int, 'k', 'e') {
        67
    } else if g == (9int, 'k', 'p') {
        68
    } else {
        -1
    }
}

/// Each key of the table has a signature that names its own position.
proof fn lemma_signature_positions()
    ensures
        forall|i: int|
            0 <= i < table().len() ==> signature_position(key_signature(#[trigger] table()[i].0)) == i,
{
    reveal_strlit("appName");
    reveal_strlit("settingsTitle");
    reveal_strlit("sectionGeneral");
    reveal_strlit("languageLabel");
    reveal_strlit("versionLabel");
    reveal_strlit("sectionReminder");
    reveal_strlit("intervalLabel");
    reveal_strlit("minutes");
    reveal_strlit("customMinutes");
    reveal_strlit("customIntervalText");
    reveal_strlit("breakDurationLabel");
    reveal_strlit("breakDurationText");
    reveal_strlit("snoozeDurationLabel");
    reveal_strlit("snoozeCustomPrefix");
    reveal_strlit("snoozeCustomUnit");
    reveal_strlit("snoozeCaption");
    reveal_strlit("usageTimingLabel");
    reveal_strlit("usageTimingHint");
    reveal_strlit("idleThresholdLabel");
    reveal_strlit("autoStartBreakLabel");
    reveal_strlit("autoStartBreakDelayLabel");
    reveal_strlit("noCountdown");
    reveal_strlit("autoStartBreakHint");
    reveal_strlit("seconds");
    reveal_strlit("sectionWallpaper");
    reveal_strlit("switchWallpaper");
    reveal_strlit("switchWallpaperLoading");
    reveal_strlit("sectionSystem");
    reveal_strlit("launchAtLoginLabel");
    reveal_strlit("soundLabel");
    reveal_strlit("overlayLabel");
    reveal_strlit("checkUpdate");
    reveal_strlit("updateChecking");
    reveal_strlit("upToDate");
    reveal_strlit("updateCheckFailed");
    reveal_strlit("updateAvailable");
    reveal_strlit("updateNow");
    reveal_strlit("updateFromGithub");
    reveal_strlit("updateGithubOnlyHint");
    reveal_strlit("updateDownloading");
    reveal_strlit("updateInstalling");
    reveal_strlit("skipUpdateVersion");
    reveal_strlit("updateLater");
    reveal_strlit("sectionWindow");
    reveal_strlit("windowOpacityLabel");
    reveal_strlit("windowOpacityHint");
    reveal_strlit("menuBreakNow");
    reveal_strlit("menuPause");
    reveal_strlit("menuResume");
    reveal_strlit("menuSettings");
    reveal_strlit("menuQuit");
    reveal_strlit("statusWaiting");
    reveal_strlit("statusIdle");
    reveal_strlit("statusNextBreak");
    reveal_strlit("statusSnoozed");
    reveal_strlit("statusReminding");
    reveal_strlit("statusBreaking");
    reveal_strlit("statusBreakingShort");
    reveal_strlit("statusPaused");
    reveal_strlit("reminderTitle");
    reveal_strlit("reminderSubtitle");
    reveal_strlit("reminderBreakFor");
    reveal_strlit("reminderDelay");
    reveal_strlit("reminderStart");
    reveal_strlit("reminderStartIn");
    reveal_strlit("breakTitle");
    reveal_strlit("breakHint");
    reveal_strlit("breakAlmostDone");
    reveal_strlit("breakSkip");
    assert forall|i: int| 0 <= i < table().len() implies signature_position(
        key_signature(#[trigger] table()[i].0),
    ) == i by {
        if i == 0 {
            assert(table()[0].0 == "appName"@);
        } else if i == 1 {
            assert(table()[1].0 == "settingsTitle"@);
        } else if i == 2 {
            assert(table()[2].0 == "sectionGeneral"@);
        } else if i == 3 {
            assert(table()[3].0 == "languageLabel"@);
        } else if i == 4 {
            assert(table()[4].0 == "versionLabel"@);
        } else if i == 5 {
            assert(table()[5].0 == "sectionReminder"@);
        } else if i == 6 {
            assert(table()[6].0 == "intervalLabel"@);
        } else if i == 7 {
            assert(table()[7].0 == "minutes"@);
        } else if i == 8 {
            assert(table()[8].0 == "customMinutes"@);
        } else if i == 9 {
            assert(table()[9].0 == "customIntervalText"@);
        } else if i == 10 {
            assert(table()[10].0 == "breakDurationLabel"@);
        } else if i == 11 {
            assert(table()[11].0 == "breakDurationText"@);
        } else if i == 12 {
            assert(table()[12].0 == "snoozeDurationLabel"@);
        } else if i == 13 {
            assert(table()[13].0 == "snoozeCustomPrefix"@);
        } else if i == 14 {
            assert(table()[14].0 == "snoozeCustomUnit"@);
        } else if i == 15 {
            assert(table()[15].0 == "snoozeCaption"@);
        } else if i == 16 {
            assert(table()[16].0 == "usageTimingLabel"@);
        } else if i == 17 {
            assert(table()[17].0 == "usageTimingHint"@);
        } else if i == 18 {
            assert(table()[18].0 == "idleThresholdLabel"@);
        } else if i == 19 {
            assert(table()[19].0 == "autoStartBreakLabel"@);
        } else if i == 20 {
            assert(table()[20].0 == "autoStartBreakDelayLabel"@);
        } else if i == 21 {
            assert(table()[21].0 == "noCountdown"@);
        } else if i == 22 {
            assert(table()[22].0 == "autoStartBreakHint"@);
        } else if i == 23 {
            assert(table()[23].0 == "seconds"@);
        } else if i == 24 {
            assert(table()[24].0 == "sectionWallpaper"@);
        } else if i == 25 {
            assert(table()[25].0 == "switchWallpaper"@);
        } else if i == 26 {
            assert(table()[26].0 == "switchWallpaperLoading"@);
        } else if i == 27 {
            assert(table()[27].0 == "sectionSystem"@);
        } else if i == 28 {
            assert(table()[28].0 == "launchAtLoginLabel"@);
        } else if i == 29 {
            assert(table()[29].0 == "soundLabel"@);
        } else if i == 30 {
            assert(table()[30].0 == "overlayLabel"@);
        } else if i == 31 {
            assert(table()[31].0 == "checkUpdate"@);
        } else if i == 32 {
            assert(table()[32].0 == "updateChecking"@);
        } else if i == 33 {
            assert(table()[33].0 == "upToDate"@);
        } else if i == 34 {
            assert(table()[34].0 == "updateCheckFailed"@);
        } else if i == 35 {
            assert(table()[35].0 == "updateAvailable"@);
        } else if i == 36 {
            assert(table()[36].0 == "updateNow"@);
        } else if i == 37 {
            assert(table()[37].0 == "updateFromGithub"@);
        } else if i == 38 {
            assert(table()[38].0 == "updateGithubOnlyHint"@);
        } else if i == 39 {
            assert(table()[39].0 == "updateDownloading"@);
        } else if i == 40 {
            assert(table()[40].0 == "updateInstalling"@);
        } else if i == 41 {
            assert(table()[41].0 == "skipUpdateVersion"@);
        } else if i == 42 {
            assert(table()[42].0 == "updateLater"@);
        } else if i == 43 {
            assert(table()[43].0 == "sectionWindow"@);
        } else if i == 44 {
            assert(table()[44].0 == "windowOpacityLabel"@);
        } else if i == 45 {
            assert(table()[45].0 == "windowOpacityHint"@);
        } else if i == 46 {
            assert(table()[46].0 == "menuBreakNow"@);
        } else if i == 47 {
            assert(table()[47].0 == "menuPause"@);
        } else if i == 48 {
            assert(table()[48].0 == "menuResume"@);
        } else if i == 49 {
            assert(table()[49].0 == "menuSettings"@);
        } else if i == 50 {
            assert(table()[50].0 == "menuQuit"@);
        } else if i == 51 {
            assert(table()[51].0 == "statusWaiting"@);
        } else if i == 52 {
            assert(table()[52].0 == "statusIdle"@);
        } else if i == 53 {
            assert(table()[53].0 == "statusNextBreak"@);
        } else if i == 54 {
            assert(table()[54].0 == "statusSnoozed"@);
        } else if i == 55 {
            assert(table()[55].0 == "statusReminding"@);
        } else if i == 56 {
            assert(table()[56].0 == "statusBreaking"@);
        } else if i == 57 {
            assert(table()[57].0 == "statusBreakingShort"@);
        } else if i == 58 {
            assert(table()[58].0 == "statusPaused"@);
        } else if i == 59 {
            assert(table()[59].0 == "reminderTitle"@);
        } else if i == 60 {
            assert(table()[60].0 == "reminderSubtitle"@);
        } else if i == 61 {
            assert(table()[61].0 == "reminderBreakFor"@);
        } else if i == 62 {
            assert(table()[62].0 == "reminderDelay"@);
        } else if i == 63 {
            assert(table()[63].0 == "reminderStart"@);
        } else if i == 64 {
            assert(table()[64].0 == "reminderStartIn"@);
        } else if i == 65 {
            assert(table()[65].0 == "breakTitle"@);
        } else if i == 66 {
            assert(table()[66].0 == "breakHint"@);
        } else if i == 67 {
            assert(table()[67].0 == "breakAlmostDone"@);
        } else if i == 68 {
            assert(table()[68].0 == "breakSkip"@);
        }
    }
}

/// No key appears twice in the table: its pairs form a map from key to text.
pub proof fn lemma_table_keys_distinct()
    ensures
        forall|i: int, j: int|
            0 <= i < j < table().len() ==> #[trigger] table()[i].0 != #[trigger] table()[j].0,
{
    lemma_signature_positions();
}

} // verus!
