use pause::l10n::Lang;
use pause::presentation::{bar_label, compute_tray_view, pause_label, status_title, TrayView};
use pause::reminder::{Phase, Snapshot};

const NOW: i64 = 1_000_000_000;

fn snap(phase: Phase, waiting: bool, idle: bool) -> Snapshot {
    Snapshot {
        seq: 0,
        phase,
        menu_bar_minutes: None,
        is_waiting_for_presentation: waiting,
        is_user_idle: idle,
        break_duration_minutes: 5,
        snooze_minutes: 5,
        auto_start_break: true,
        auto_start_break_delay_seconds: 0,
        server_now: NOW,
    }
}

#[test]
fn bar_label_per_phase() {
    assert_eq!(bar_label(&snap(Phase::Paused, false, false), NOW), "⏸");
    assert_eq!(bar_label(&snap(Phase::Reminding { auto_break_at: None }, false, false), NOW), "!");
    let working = Phase::Working { deadline: NOW + 42 * 60_000 + 1 };
    assert_eq!(bar_label(&snap(working, false, false), NOW), "43m");
    assert_eq!(bar_label(&snap(working, true, false), NOW), "!");
    let snoozing = Phase::Snoozing { deadline: NOW + 5 * 60_000, snooze_count: 1 };
    assert_eq!(bar_label(&snap(snoozing, true, false), NOW), "5m");
    let breaking = Phase::Breaking { started_at: NOW - 60_000, duration_ms: 5 * 60_000 };
    assert_eq!(bar_label(&snap(breaking, false, false), NOW), "4m");
    let over = Phase::Working { deadline: NOW - 1 };
    assert_eq!(bar_label(&snap(over, false, false), NOW), "0m");
}

#[test]
fn status_line_per_phase() {
    let working = Phase::Working { deadline: NOW + 10 * 60_000 };
    assert_eq!(status_title(Lang::English, &snap(working, false, false), NOW), "Next break in 10 min");
    assert_eq!(status_title(Lang::Chinese, &snap(working, false, false), NOW), "下次休息：10 分钟后");
    assert_eq!(
        status_title(Lang::English, &snap(working, false, true), NOW),
        "No activity detected — timer paused"
    );
    assert_eq!(
        status_title(Lang::English, &snap(working, true, false), NOW),
        "Break is due — waiting for the right moment…"
    );
    let snoozing = Phase::Snoozing { deadline: NOW + 3 * 60_000, snooze_count: 2 };
    assert_eq!(
        status_title(Lang::English, &snap(snoozing, false, false), NOW),
        "Delayed — reminds again in 3 min"
    );
    let breaking = Phase::Breaking { started_at: NOW, duration_ms: 5 * 60_000 };
    assert_eq!(status_title(Lang::Chinese, &snap(breaking, false, false), NOW), "休息中 · 剩余 5 分钟");
    assert_eq!(status_title(Lang::English, &snap(Phase::Paused, false, false), NOW), "Reminders paused");
    assert_eq!(
        status_title(Lang::English, &snap(Phase::Reminding { auto_break_at: Some(NOW) }, false, false), NOW),
        "Time for a break"
    );
}

#[test]
fn pause_item_toggles() {
    assert_eq!(pause_label(Lang::English, true), "Resume Reminders");
    assert_eq!(pause_label(Lang::English, false), "Pause Reminders");
    assert_eq!(pause_label(Lang::Chinese, true), "继续提醒");
    let view = compute_tray_view(Lang::English, &snap(Phase::Paused, false, false), NOW);
    assert_eq!(
        view,
        TrayView {
            bar_label: "⏸".to_string(),
            status_title: "Reminders paused".to_string(),
            pause_label: "Resume Reminders".to_string(),
        }
    );
}
