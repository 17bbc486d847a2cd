use pause::reminder::{
    idle_postponement, next_deadline, BreakSession, Phase, ReminderService, Snapshot,
};
use pause::settings::Settings;

const INTERVAL: i64 = 45;
const BREAK_MINS: i64 = 5;
const SNOOZE_MINS: i64 = 5;
const THRESHOLD: i64 = 2;
const AUTO_DELAY: i64 = 30;

/// Seconds to milliseconds.
fn ms(secs: f64) -> i64 {
    (secs * 1000.0) as i64
}

struct Fixture {
    service: ReminderService,
    now: i64,
    blocked: bool,
    idle: i64,
    settings: Settings,
}

impl Fixture {
    fn clock_cell_get(&self) -> i64 {
        self.now
    }
    fn advance(&mut self, secs: f64) {
        self.now += ms(secs);
    }
    fn set_system(&mut self, blocked: bool, idle_secs: f64) {
        self.blocked = blocked;
        self.idle = ms(idle_secs);
    }
    fn tick(&mut self) -> bool {
        self.service.handle_tick(self.now, self.idle, self.blocked, &self.settings)
    }
    fn snapshot(&self) -> Snapshot {
        self.service.snapshot(self.now, &self.settings)
    }
    fn snooze(&mut self) {
        self.service.snooze(self.now, &self.settings)
    }
    fn start_break(&mut self) {
        self.service.start_break(self.now, &self.settings)
    }
    fn skip_break(&mut self) {
        self.service.skip_break(self.now, &self.settings)
    }
}

fn make_service(extra: impl FnOnce(&mut Settings)) -> Fixture {
    let mut st = Settings {
        reminder_interval_minutes: INTERVAL,
        break_duration_minutes: BREAK_MINS,
        snooze_minutes: SNOOZE_MINS,
        activity_based_timing: true,
        idle_threshold_minutes: THRESHOLD,
        auto_start_break: false,
        auto_start_break_delay_seconds: AUTO_DELAY,
        sound_enabled: false,
        ..Default::default()
    };
    extra(&mut st);
    let t0 = ms(1_000_000.0);
    let service = ReminderService::new(t0, &st);
    Fixture { service, now: t0, blocked: false, idle: 0, settings: st }
}

fn make_defaults() -> Fixture {
    make_service(|_| {})
}

#[test]
fn test_initial_phase_is_working_with_interval_deadline() {
    let f = make_defaults();
    match f.service.phase() {
        Phase::Working { deadline } => assert_eq!(deadline, f.clock_cell_get() + ms(45.0 * 60.0)),
        other => panic!("expected working, got {other:?}"),
    }
}

#[test]
fn test_tick_before_deadline_does_not_fire() {
    let mut f = make_defaults();
    f.advance(60.0);
    f.tick();
    assert!(matches!(f.service.phase(), Phase::Working { .. }));
    assert!(!f.snapshot().is_waiting_for_presentation);
}

#[test]
fn test_tick_at_deadline_fires_reminder() {
    let mut f = make_defaults();
    f.advance(INTERVAL as f64 * 60.0 + 1.0);
    f.tick();
    assert!(matches!(f.service.phase(), Phase::Reminding { auto_break_at: None }));
}

#[test]
fn test_blocked_presentation_defers_reminder() {
    let mut f = make_defaults();
    f.set_system(true, 0.0);
    f.advance(INTERVAL as f64 * 60.0 + 1.0);
    f.tick();
    assert!(matches!(f.service.phase(), Phase::Working { .. }));
    assert!(f.snapshot().is_waiting_for_presentation);

    f.set_system(false, 0.0);
    f.advance(2.0);
    f.tick();
    assert!(matches!(f.service.phase(), Phase::Reminding { .. }));
}

#[test]
fn test_snooze_postpones_without_full_interval() {
    let mut f = make_defaults();
    let t0 = f.clock_cell_get();
    f.advance(INTERVAL as f64 * 60.0 + 1.0);
    f.tick();
    let at_reminder = f.clock_cell_get();
    f.snooze();
    match f.service.phase() {
        Phase::Snoozing { deadline, snooze_count } => {
            assert_eq!(deadline, at_reminder + ms(SNOOZE_MINS as f64 * 60.0));
            assert!(deadline < t0 + ms(INTERVAL as f64 * 60.0) + ms(INTERVAL as f64 * 60.0));
            assert_eq!(snooze_count, 1);
        }
        other => panic!("expected snoozing, got {other:?}"),
    }
}

#[test]
fn test_snooze_is_not_limited() {
    let mut f = make_defaults();
    f.advance(INTERVAL as f64 * 60.0 + 1.0);
    f.tick();
    for expected in 1u32..=5 {
        f.snooze();
        assert_eq!(f.service.snooze_count_this_cycle(), expected);
        f.advance(SNOOZE_MINS as f64 * 60.0 + 1.0);
        f.tick();
    }
}

#[test]
fn test_snooze_count_resets_after_new_work_cycle() {
    let mut f = make_defaults();
    f.advance(INTERVAL as f64 * 60.0 + 1.0);
    f.tick();
    f.snooze();
    f.advance(SNOOZE_MINS as f64 * 60.0 + 1.0);
    f.tick();
    f.snooze();
    assert_eq!(f.service.snooze_count_this_cycle(), 2);

    f.start_break();
    f.skip_break();
    assert_eq!(f.service.snooze_count_this_cycle(), 0);
    assert!(matches!(f.service.phase(), Phase::Working { .. }));
}

#[test]
fn test_break_completes_and_restarts_work_cycle_from_break_end() {
    let mut f = make_defaults();
    f.start_break();
    match f.service.phase() {
        Phase::Breaking { started_at, duration_ms } => {
            assert_eq!(duration_ms, ms(BREAK_MINS as f64 * 60.0));
            f.advance(BREAK_MINS as f64 * 60.0 + 1.0);
            let now = f.clock_cell_get();
            f.tick();
            match f.service.phase() {
                Phase::Working { deadline } => {
                    assert_eq!(deadline, now + ms(INTERVAL as f64 * 60.0));
                }
                other => panic!("expected working, got {other:?}"),
            }
            let _ = started_at;
        }
        other => panic!("expected breaking, got {other:?}"),
    }
}

#[test]
fn test_skip_break_restarts_immediately() {
    let mut f = make_defaults();
    f.start_break();
    f.skip_break();
    assert!(matches!(f.service.phase(), Phase::Working { .. }));
}

#[test]
fn test_pause_and_resume() {
    let mut f = make_defaults();
    f.service.pause();
    f.advance(3600.0 * 10.0);
    f.tick();
    assert_eq!(f.service.phase(), Phase::Paused);
    f.service.resume(f.now, &f.settings);
    match f.service.phase() {
        Phase::Working { deadline } => {
            assert_eq!(deadline, f.clock_cell_get() + ms(INTERVAL as f64 * 60.0))
        }
        other => panic!("expected working, got {other:?}"),
    }
}

#[test]
fn test_wake_after_long_sleep_fires_only_one_reminder() {
    let mut f = make_defaults();
    f.set_system(false, 0.0);
    f.advance(3600.0 * 8.0);
    f.tick();
    assert!(matches!(f.service.phase(), Phase::Reminding { .. }));

    f.start_break();
    f.advance(BREAK_MINS as f64 * 60.0 + 1.0);
    f.tick();
    assert!(matches!(f.service.phase(), Phase::Working { .. }));
}

#[test]
fn test_restart_uses_current_interval() {
    let mut f = make_service(|s| s.reminder_interval_minutes = 30);
    let before = f.clock_cell_get();
    f.service.restart_work_cycle(f.now, &f.settings);
    match f.service.phase() {
        Phase::Working { deadline } => assert_eq!(deadline, before + ms(30.0 * 60.0)),
        other => panic!("expected working, got {other:?}"),
    }
}

#[test]
fn test_next_deadline_pure_function() {
    assert_eq!(next_deadline(ms(100.0), 10), ms(700.0));
}

#[test]
fn test_auto_start_break_begins_break_after_countdown() {
    let mut f = make_service(|s| s.auto_start_break = true);
    f.advance(INTERVAL as f64 * 60.0 + 1.0);
    f.tick();
    match f.service.phase() {
        Phase::Reminding { auto_break_at: Some(at) } => {
            assert_eq!(at, f.clock_cell_get() + ms(AUTO_DELAY as f64));
        }
        other => panic!("expected auto reminding, got {other:?}"),
    }
    f.advance(29.0);
    f.tick();
    assert!(matches!(f.service.phase(), Phase::Reminding { .. }), "29s is too early for the break");
    f.advance(2.0);
    f.tick();
    assert!(f.service.phase().is_breaking());
}

#[test]
fn test_manual_mode_never_auto_starts() {
    let mut f = make_defaults();
    f.advance(INTERVAL as f64 * 60.0 + 1.0);
    f.tick();
    match f.service.phase() {
        Phase::Reminding { auto_break_at: None } => {}
        other => panic!("expected manual reminding, got {other:?}"),
    }
    f.advance(3600.0);
    f.tick();
    assert!(matches!(f.service.phase(), Phase::Reminding { auto_break_at: None }));
}

#[test]
fn test_idle_postpones_deadline() {
    let mut f = make_defaults();
    let start = f.clock_cell_get();
    f.advance(600.0);
    f.tick();
    assert_eq!(f.snapshot().menu_bar_minutes, Some(35));

    f.set_system(false, 480.0);
    f.advance(360.0);
    f.tick();
    match f.service.phase() {
        Phase::Working { deadline } => {
            assert!((deadline - (start + ms(45.0 * 60.0 + 6.0 * 60.0))).abs() <= ms(2.0));
        }
        other => panic!("expected working, got {other:?}"),
    }
    let snap = f.snapshot();
    assert_eq!(snap.menu_bar_minutes, Some(35));
    assert!(snap.is_user_idle);
}

#[test]
fn test_idle_below_threshold_does_not_postpone() {
    let mut f = make_defaults();
    let start = f.clock_cell_get();
    f.set_system(false, 90.0);
    f.advance(360.0);
    f.tick();
    match f.service.phase() {
        Phase::Working { deadline } => assert_eq!(deadline, start + ms(INTERVAL as f64 * 60.0)),
        other => panic!("expected working, got {other:?}"),
    }
    assert!(!f.snapshot().is_user_idle);
}

#[test]
fn test_activity_timing_disabled_does_not_postpone() {
    let mut f = make_service(|s| s.activity_based_timing = false);
    let start = f.clock_cell_get();
    f.set_system(false, 1800.0);
    f.advance(1800.0);
    f.tick();
    match f.service.phase() {
        Phase::Working { deadline } => assert_eq!(deadline, start + ms(INTERVAL as f64 * 60.0)),
        other => panic!("expected working, got {other:?}"),
    }
}

#[test]
fn test_wake_after_long_idle_does_not_fire_immediately() {
    let mut f = make_defaults();
    f.advance(300.0);
    f.tick();
    f.set_system(false, 28_800.0);
    f.advance(28_800.0);
    f.tick();
    assert!(matches!(f.service.phase(), Phase::Working { .. }));
    assert_eq!(f.snapshot().menu_bar_minutes, Some(40));
}

#[test]
fn test_idle_postponement_pure_function() {
    assert_eq!(idle_postponement(ms(28_800.0), ms(60.0), THRESHOLD, false), 0);
    assert_eq!(idle_postponement(ms(100.0), ms(60.0), THRESHOLD, true), 0);
    assert_eq!(idle_postponement(ms(600.0), ms(60.0), THRESHOLD, true), ms(60.0));
    assert_eq!(idle_postponement(ms(28_800.0), ms(300.0), THRESHOLD, true), ms(300.0));
}

#[test]
fn test_menu_bar_minutes_publishes_minute_values() {
    let mut f = make_defaults();
    f.advance(10.0);
    f.tick();
    assert_eq!(f.snapshot().menu_bar_minutes, Some(45));
    f.advance(30.0);
    f.tick();
    assert_eq!(f.snapshot().menu_bar_minutes, Some(45));
    f.advance(60.0);
    f.tick();
    assert_eq!(f.snapshot().menu_bar_minutes, Some(44));
}

#[test]
fn test_break_session_remaining_and_format() {
    let t0 = ms(1000.0);
    let session = BreakSession { started_at: t0, duration_ms: ms(300.0) };
    assert_eq!(session.remaining(t0), ms(300.0));
    assert_eq!(session.remaining(t0 + ms(17.0)), ms(283.0));
    assert_eq!(session.remaining(t0 + ms(400.0)), 0);
    assert_eq!(BreakSession::format(ms(300.0)), "05:00");
    assert_eq!(BreakSession::format(ms(283.0)), "04:43");
    assert_eq!(BreakSession::format(ms(0.0)), "00:00");
}

#[test]
fn version_counter_moves_only_when_the_minutes_change() {
    let mut f = make_defaults();
    f.advance(10.0);
    f.tick();
    let seq = f.snapshot().seq;
    f.advance(30.0);
    f.tick();
    assert_eq!(f.snapshot().seq, seq);
    f.advance(60.0);
    f.tick();
    assert_eq!(f.snapshot().seq, seq + 1);
    let after = f.service.snapshot_after_action(f.now, &f.settings);
    assert_eq!(after.seq, seq + 2);
}

#[test]
fn chime_follows_the_sound_setting() {
    let mut f = make_service(|s| s.sound_enabled = true);
    f.advance(INTERVAL as f64 * 60.0 - 1.0);
    assert!(!f.tick());
    f.advance(2.0);
    assert!(f.tick());
    assert!(!f.tick());
}

#[test]
fn start_break_twice_keeps_the_first_start() {
    let mut f = make_defaults();
    f.start_break();
    let first = f.service.phase();
    f.advance(60.0);
    f.start_break();
    assert_eq!(f.service.phase(), first);
}

#[test]
fn snooze_outside_reminder_does_nothing() {
    let mut f = make_defaults();
    let before = f.service.phase();
    f.snooze();
    assert_eq!(f.service.phase(), before);
    assert_eq!(f.service.snooze_count_this_cycle(), 0);
}

#[test]
fn break_tick_shows_minutes_left_rounded_up() {
    let mut f = make_defaults();
    f.start_break();
    f.advance(61.0);
    f.tick();
    assert_eq!(f.snapshot().menu_bar_minutes, Some(4));
    assert_eq!(BreakSession::format(ms(59.5)), "01:00");
    assert_eq!(BreakSession::format(ms(59.4)), "00:59");
    assert_eq!(BreakSession::format(ms(6000.0)), "100:00");
}

#[test]
fn phase_tags_and_pending_deadlines() {
    assert_eq!(Phase::Working { deadline: 5 }.tag(), "working");
    assert_eq!(Phase::Snoozing { deadline: 5, snooze_count: 1 }.tag(), "snoozing");
    assert_eq!(Phase::Reminding { auto_break_at: None }.tag(), "reminding");
    assert_eq!(Phase::Breaking { started_at: 0, duration_ms: 1 }.tag(), "breaking");
    assert_eq!(Phase::Paused.tag(), "paused");
    assert_eq!(Phase::Snoozing { deadline: 5, snooze_count: 1 }.pending_deadline(), Some(5));
    assert_eq!(Phase::Paused.pending_deadline(), None);
}
