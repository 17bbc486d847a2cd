use pause::orchestration::{
    language_update, launch_at_login_toggle, menu_action, setting_effect, MenuAction, Orchestrator,
    SettingEffect, WindowCommand,
};
use pause::platform::{flags_snapshot, ActivityFlags, SessionEvent};
use pause::reminder::{AlwaysActive, Phase, SystemActivityProviding};

#[test]
fn window_follows_phase_changes() {
    let mut o = Orchestrator::new();
    let working = Phase::Working { deadline: 10 };
    assert_eq!(o.orchestrate(working, 1_000), WindowCommand::HideReminder);
    assert_eq!(o.orchestrate(working, 2_000), WindowCommand::Nothing);
    let reminding = Phase::Reminding { auto_break_at: None };
    assert_eq!(o.orchestrate(reminding, 3_000), WindowCommand::ShowReminder);
    assert_eq!(o.orchestrate(reminding, 4_000), WindowCommand::Nothing);
    let breaking = Phase::Breaking { started_at: 5, duration_ms: 300_000 };
    assert_eq!(o.orchestrate(breaking, 5_000), WindowCommand::EnsureVisible);
    assert_eq!(o.last_break_advance_ms, 5_000);
    assert_eq!(o.orchestrate(breaking, 29_999), WindowCommand::Nothing);
    assert_eq!(o.orchestrate(breaking, 30_000), WindowCommand::RotateWallpaper);
    assert_eq!(o.last_break_advance_ms, 30_000);
    assert_eq!(o.orchestrate(working, 31_000), WindowCommand::HideReminder);
}

#[test]
fn menu_items() {
    assert_eq!(menu_action("break-now", false), MenuAction::StartBreak);
    assert_eq!(menu_action("pause-toggle", false), MenuAction::Pause);
    assert_eq!(menu_action("pause-toggle", true), MenuAction::Resume);
    assert_eq!(menu_action("open-settings", true), MenuAction::OpenSettings);
    assert_eq!(menu_action("quit", false), MenuAction::Quit);
    assert_eq!(menu_action("status", false), MenuAction::Ignore);
}

#[test]
fn setting_side_effects() {
    assert_eq!(setting_effect("reminderIntervalMinutes"), SettingEffect::RestartCycle);
    assert_eq!(setting_effect("reminderWindowOpacity"), SettingEffect::ApplyOpacity);
    assert_eq!(setting_effect("overlayOtherWindows"), SettingEffect::ApplyOverlay);
    assert_eq!(setting_effect("launchAtLogin"), SettingEffect::SyncLaunchAtLogin);
    assert_eq!(setting_effect("wallpaperImageURLString"), SettingEffect::RefetchWallpaper);
    assert_eq!(setting_effect("soundEnabled"), SettingEffect::NoEffect);
}

#[test]
fn language_and_login_choices() {
    assert_eq!(language_update("chinese", "english"), ("english", true));
    assert_eq!(language_update("chinese", "klingon"), ("chinese", false));
    assert_eq!(launch_at_login_toggle(true, true), None);
    assert_eq!(launch_at_login_toggle(false, true), Some(true));
    assert_eq!(launch_at_login_toggle(true, false), Some(false));
}

#[test]
fn activity_flags() {
    let mut f = ActivityFlags::default();
    assert!(!f.presentation_blocked());
    assert_eq!(flags_snapshot(&f), "locked=false saver=false asleep=false");
    f.set_saver(true);
    assert!(f.presentation_blocked());
    f.set_locked(true);
    f.set_saver(false);
    assert_eq!(flags_snapshot(&f), "locked=true saver=false asleep=false");
    f.set_locked(false);
    f.set_asleep(true);
    assert!(f.presentation_blocked());
    assert_ne!(SessionEvent::SystemWake, SessionEvent::Unlocked);
    let probe = AlwaysActive;
    assert!(!probe.is_presentation_blocked());
    assert_eq!(probe.user_idle_millis(), 0);
}
