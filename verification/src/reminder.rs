//! The reminder state machine: the one source of truth for timing.
//!
//! - Deadlines are absolute instants. While the system sleeps no tick
//!   arrives; the first tick after waking turns one expired deadline into one
//!   reminder, so no storm of reminders follows a long sleep.
//! - With usage-based timing on, a stretch of idleness at or past the
//!   threshold postpones the pending deadline by `min(idle, elapsed)` on each
//!   tick: time away, display sleep and system sleep do not count down.
//! - While the screen is locked, the screensaver runs or the display sleeps,
//!   an expired reminder waits (`is_waiting_for_presentation`) and shows on the
//!   first tick after the screen can be seen again.
//! - Every transition happens in [`ReminderService::handle_tick`] and the user
//!   actions; the caller supplies the current instant, the idle time and
//!   whether presentation is blocked, so every step is a function of its inputs.
//!
//! Instants and durations are integer milliseconds since the Unix epoch.

use crate::settings::SettingsView;
use crate::settings::Settings;
use crate::text::{decimal, push_char, push_decimal};
use vstd::prelude::*;

verus! {

/// One minute in milliseconds.
pub const MINUTE_MS: i64 = 60_000;

/// One second in milliseconds.
pub const SECOND_MS: i64 = 1_000;

/// The latest instant the state machine accepts (about 146 million years).
pub const MAX_EPOCH_MILLIS: i64 = 4_611_686_018_427_387_903;

/// Whether `t` is an instant the state machine accepts.
pub open spec fn time_ok(t: int) -> bool {
    0 <= t <= MAX_EPOCH_MILLIS
}

/// Where the reminder cycle stands.
#[derive(Debug, Clone, Copy, PartialEq, Eq, Structural)]
pub enum Phase {
    /// Counting down to the next reminder.
    Working { deadline: i64 },
    /// The reminder was delayed; counting down to the delayed reminder.
    Snoozing { deadline: i64, snooze_count: u32 },
    /// The reminder is showing; `auto_break_at` is when the break starts by
    /// itself (`None`: auto-start is off).
    Reminding { auto_break_at: Option<i64> },
    /// On a break.
    Breaking { started_at: i64, duration_ms: i64 },
    /// Reminders are paused.
    Paused,
}

/// The tag of a phase, as the front end knows it.
pub open spec fn spec_tag(p: Phase) -> Seq<char> {
    match p {
        Phase::Working { .. } => "working"@,
        Phase::Snoozing { .. } => "snoozing"@,
        Phase::Reminding { .. } => "reminding"@,
        Phase::Breaking { .. } => "breaking"@,
        Phase::Paused => "paused"@,
    }
}

/// The pending deadline of a counting-down phase.
pub open spec fn spec_pending_deadline(p: Phase) -> Option<i64> {
    match p {
        Phase::Working { deadline } => Some(deadline),
        Phase::Snoozing { deadline, .. } => Some(deadline),
        _ => None,
    }
}

impl Phase {
    /// The tag of the phase.
    pub fn tag(&self) -> (res: &'static str)
        ensures
            res@ == spec_tag(*self),
    {
        match self {
            Phase::Working { .. } => "working",
            Phase::Snoozing { .. } => "snoozing",
            Phase::Reminding { .. } => "reminding",
            Phase::Breaking { .. } => "breaking",
            Phase::Paused => "paused",
        }
    }

    /// Only working and snoozing have a deadline still to come.
    pub fn pending_deadline(&self) -> (res: Option<i64>)
        ensures
            res == spec_pending_deadline(*self),
    {
        match self {
            Phase::Working { deadline } => Some(*deadline),
            Phase::Snoozing { deadline, .. } => Some(*deadline),
            _ => None,
        }
    }

    pub fn is_breaking(&self) -> (res: bool)
        ensures
            res == (*self is Breaking),
    {
        match self {
            Phase::Breaking { .. } => true,
            _ => false,
        }
    }
}

/// A break: when it started and how long it lasts.
#[derive(Debug, Clone, Copy, PartialEq, Eq, Structural)]
pub struct BreakSession {
    pub started_at: i64,
    pub duration_ms: i64,
}

/// Time left at `now` of a break ending at `ends_at`, never below zero.
pub open spec fn spec_remaining(ends_at: int, now: int) -> int {
    if ends_at - now > 0 {
        ends_at - now
    } else {
        0
    }
}

/// Whole seconds of a span, rounded to nearest (halves up), never below zero.
pub open spec fn rounded_seconds(ms: int) -> int {
    if ms <= 0 {
        0
    } else {
        (ms + 500) / 1000
    }
}

/// A number as at least two digits, zero-padded.
pub open spec fn two_digits(n: nat) -> Seq<char> {
    if n < 10 {
        seq!['0'] + decimal(n)
    } else {
        decimal(n)
    }
}

/// `mm:ss` for a remaining span: minutes and seconds of its rounded whole seconds.
pub open spec fn spec_format_mmss(ms: int) -> Seq<char> {
    let total = rounded_seconds(ms);
    two_digits((total / 60) as nat) + seq![':'] + two_digits((total % 60) as nat)
}

fn push_two_digits(out: &mut String, n: u64)
    ensures
        final(out)@ == old(out)@ + two_digits(n as nat),
{
    if n < 10 {
        push_char(out, '0');
    }
    push_decimal(out, n);
    assert(final(out)@ =~= old(out)@ + two_digits(n as nat));
}

impl BreakSession {
    /// When the break ends.
    pub fn ends_at(&self) -> (res: i64)
        requires
            i64::MIN <= self.started_at + self.duration_ms <= i64::MAX,
        ensures
            res == self.started_at + self.duration_ms,
    {
        self.started_at + self.duration_ms
    }

    /// Time left at `now`, never below zero.
    pub fn remaining(&self, now: i64) -> (res: i64)
        requires
            i64::MIN <= self.started_at + self.duration_ms <= i64::MAX,
            i64::MIN <= self.started_at + self.duration_ms - now <= i64::MAX,
        ensures
            res == spec_remaining(self.started_at + self.duration_ms, now as int),
    {
        let left = self.ends_at() - now;
        if left > 0 {
            left
        } else {
            0
        }
    }

    /// `mm:ss` of a remaining span: its whole seconds, rounded to nearest
    /// (300 000 ms gives "05:00", 283 000 ms "04:43", 0 gives "00:00").
    pub fn format(remaining_ms: i64) -> (res: String)
        ensures
            res@ == spec_format_mmss(remaining_ms as int),
    {
        let total: i64 = if remaining_ms <= 0 {
            0
        } else {
            remaining_ms / 1000 + (if remaining_ms % 1000 >= 500 { 1 } else { 0 })
        };
        assert(total == rounded_seconds(remaining_ms as int));
        let m = (total / 60) as u64;
        let s = (total % 60) as u64;
        let mut out = String::new();
        push_two_digits(&mut out, m);
        push_char(&mut out, ':');
        push_two_digits(&mut out, s);
        assert(out@ =~= spec_format_mmss(remaining_ms as int));
        out
    }
}

} // verus!

verus! {

/// The state of the reminder machine, as plain values.
pub struct ReminderState {
    pub phase: Phase,
    pub last_tick_at: i64,
    pub menu_bar_minutes: Option<i64>,
    pub is_waiting_for_presentation: bool,
    pub is_user_idle: bool,
    pub snooze_count_this_cycle: u32,
    pub seq: u64,
}

/// The deadline of a work cycle that starts at `now`.
pub open spec fn spec_next_deadline(now: int, interval_minutes: int) -> int {
    now + interval_minutes * MINUTE_MS
}

/// How far one tick postpones the pending deadline: with usage-based timing
/// on, a positive elapsed span and idleness at or past the threshold, the
/// smaller of the idle time and the elapsed span; otherwise nothing. (A
/// night's sleep postpones by what the tick actually spans, never more.)
pub open spec fn spec_idle_postponement(
    idle: int,
    elapsed: int,
    threshold_minutes: int,
    enabled: bool,
) -> int {
    if !enabled || elapsed <= 0 || idle < threshold_minutes * MINUTE_MS {
        0
    } else if idle < elapsed {
        idle
    } else {
        elapsed
    }
}

/// Whole minutes in a positive span, rounded up.
pub open spec fn ceil_minutes(ms: int) -> int {
    if ms <= 0 {
        0
    } else {
        (ms + MINUTE_MS - 1) / (MINUTE_MS as int)
    }
}

/// `a + b`, or the largest instant if that does not fit.
pub open spec fn add_capped(a: int, b: int) -> int {
    if a + b > i64::MAX {
        i64::MAX as int
    } else {
        a + b
    }
}

/// The counter after one more step (wrapping at its width).
pub open spec fn next_seq(seq: u64) -> u64 {
    if seq == u64::MAX {
        0
    } else {
        (seq + 1) as u64
    }
}

pub open spec fn next_count(c: u32) -> u32 {
    if c == u32::MAX {
        0
    } else {
        (c + 1) as u32
    }
}

/// Publishing a menu-bar minute count: never below zero, and the version
/// counter moves only when the shown value changes.
pub open spec fn published(st: ReminderState, mins: int) -> ReminderState {
    let clamped = if mins < 0 {
        0
    } else {
        mins
    };
    if st.menu_bar_minutes == Some(clamped as i64) {
        st
    } else {
        ReminderState { menu_bar_minutes: Some(clamped as i64), seq: next_seq(st.seq), ..st }
    }
}

/// A new work cycle from `now`: full interval, no snoozes, nothing waiting.
pub open spec fn restarted(st: ReminderState, now: int, s: SettingsView) -> ReminderState {
    let st1 = published(
        ReminderState { is_waiting_for_presentation: false, snooze_count_this_cycle: 0, ..st },
        s.reminder_interval_minutes as int,
    );
    ReminderState {
        phase: Phase::Working {
            deadline: spec_next_deadline(now, s.reminder_interval_minutes as int) as i64,
        },
        ..st1
    }
}

/// The reminder shows at `now`; the result's second part tells whether the
/// chime plays.
pub open spec fn fired(st: ReminderState, now: int, s: SettingsView) -> (ReminderState, bool) {
    let auto = if s.auto_start_break {
        Some((now + s.auto_start_break_delay_seconds * SECOND_MS) as i64)
    } else {
        None
    };
    (
        ReminderState {
            is_waiting_for_presentation: false,
            phase: Phase::Reminding { auto_break_at: auto },
            ..st
        },
        s.sound_enabled,
    )
}

/// A break starts at `now`, unless one is already running.
pub open spec fn break_started(st: ReminderState, now: int, s: SettingsView) -> ReminderState {
    if st.phase is Breaking {
        st
    } else {
        ReminderState {
            phase: Phase::Breaking {
                started_at: now as i64,
                duration_ms: (s.break_duration_minutes * MINUTE_MS) as i64,
            },
            ..st
        }
    }
}

/// A counting-down phase at (possibly postponed) deadline `d`, at `now`.
pub open spec fn counted_down(st: ReminderState, d: int, now: int, blocked: bool, s: SettingsView) -> (
    ReminderState,
    bool,
) {
    if d <= now {
        if blocked {
            (ReminderState { is_waiting_for_presentation: true, ..st }, false)
        } else {
            fired(st, now, s)
        }
    } else {
        (published(ReminderState { is_waiting_for_presentation: false, ..st }, ceil_minutes(d - now)), false)
    }
}

/// One tick at `now` with `idle` milliseconds since the last input and
/// presentation `blocked` or not; the second part tells whether the chime plays.
pub open spec fn spec_tick(st: ReminderState, now: int, idle: int, blocked: bool, s: SettingsView) -> (
    ReminderState,
    bool,
) {
    let elapsed = now - st.last_tick_at;
    let post = spec_idle_postponement(
        idle,
        elapsed,
        s.idle_threshold_minutes as int,
        s.activity_based_timing,
    );
    let st1 = ReminderState {
        last_tick_at: now as i64,
        is_user_idle: s.activity_based_timing && idle >= s.idle_threshold_minutes * MINUTE_MS,
        ..st
    };
    match st.phase {
        Phase::Working { deadline } => {
            let d = add_capped(deadline as int, post);
            let st2 = if post > 0 {
                ReminderState { phase: Phase::Working { deadline: d as i64 }, ..st1 }
            } else {
                st1
            };
            counted_down(st2, d, now, blocked, s)
        },
        Phase::Snoozing { deadline, snooze_count } => {
            let d = add_capped(deadline as int, post);
            let st2 = if post > 0 {
                ReminderState { phase: Phase::Snoozing { deadline: d as i64, snooze_count }, ..st1 }
            } else {
                st1
            };
            counted_down(st2, d, now, blocked, s)
        },
        Phase::Breaking { started_at, duration_ms } => {
            let left = spec_remaining(started_at + duration_ms, now);
            if left <= 0 {
                (restarted(st1, now, s), false)
            } else {
                (published(st1, ceil_minutes(left)), false)
            }
        },
        Phase::Reminding { auto_break_at } => match auto_break_at {
            Some(at) => if now >= at {
                (break_started(st1, now, s), false)
            } else {
                (st1, false)
            },
            None => (st1, false),
        },
        Phase::Paused => (st1, false),
    }
}

/// Delaying the showing reminder by the snooze length (not a full interval);
/// outside a reminder nothing changes.
pub open spec fn snoozed(st: ReminderState, now: int, s: SettingsView) -> ReminderState {
    if st.phase is Reminding {
        let c = next_count(st.snooze_count_this_cycle);
        ReminderState {
            snooze_count_this_cycle: c,
            phase: Phase::Snoozing {
                deadline: (now + s.snooze_minutes * MINUTE_MS) as i64,
                snooze_count: c,
            },
            ..st
        }
    } else {
        st
    }
}

/// Pausing; a paused machine stays as it is.
pub open spec fn paused(st: ReminderState) -> ReminderState {
    if st.phase == Phase::Paused {
        st
    } else {
        ReminderState { phase: Phase::Paused, ..st }
    }
}

/// Resuming: a paused machine starts a new work cycle; otherwise nothing changes.
pub open spec fn resumed(st: ReminderState, now: int, s: SettingsView) -> ReminderState {
    if st.phase == Phase::Paused {
        restarted(st, now, s)
    } else {
        st
    }
}

/// The machine's own invariant: instants stay where arithmetic on them fits.
pub open spec fn state_ok(st: ReminderState) -> bool {
    &&& time_ok(st.last_tick_at as int)
    &&& match st.phase {
        Phase::Working { deadline } => deadline >= 0,
        Phase::Snoozing { deadline, .. } => deadline >= 0,
        Phase::Breaking { started_at, duration_ms } => time_ok(started_at as int) && 0
            <= duration_ms <= 30 * MINUTE_MS,
        _ => true,
    }
}

/// What a snapshot shows: the machine's state and the settings that the
/// front end needs beside it.
pub open spec fn spec_snapshot(st: ReminderState, now: int, s: SettingsView) -> Snapshot {
    Snapshot {
        seq: st.seq,
        phase: st.phase,
        menu_bar_minutes: st.menu_bar_minutes,
        is_waiting_for_presentation: st.is_waiting_for_presentation,
        is_user_idle: st.is_user_idle,
        break_duration_minutes: s.break_duration_minutes,
        snooze_minutes: s.snooze_minutes,
        auto_start_break: s.auto_start_break,
        auto_start_break_delay_seconds: s.auto_start_break_delay_seconds,
        server_now: now as i64,
    }
}

/// Everything the front end and the tray are shown, at one instant.
#[derive(Debug, Clone, Copy, PartialEq, Eq, Structural)]
pub struct Snapshot {
    pub seq: u64,
    pub phase: Phase,
    pub menu_bar_minutes: Option<i64>,
    pub is_waiting_for_presentation: bool,
    pub is_user_idle: bool,
    pub break_duration_minutes: i64,
    pub snooze_minutes: i64,
    pub auto_start_break: bool,
    pub auto_start_break_delay_seconds: i64,
    pub server_now: i64,
}

/// Presentation probe: whether a reminder could be seen now, and how long
/// since the last keyboard or mouse input.
pub trait SystemActivityProviding {
    fn is_presentation_blocked(&self) -> bool;

    fn user_idle_millis(&self) -> i64;
}

/// A probe that is never blocked and never idle.
pub struct AlwaysActive;

impl SystemActivityProviding for AlwaysActive {
    fn is_presentation_blocked(&self) -> (res: bool)
        ensures
            !res,
    {
        false
    }

    fn user_idle_millis(&self) -> (res: i64)
        ensures
            res == 0,
    {
        0
    }
}

} // verus!

verus! {

/// The reminder machine.
pub struct ReminderService {
    phase: Phase,
    last_tick_at: i64,
    menu_bar_minutes: Option<i64>,
    is_waiting_for_presentation: bool,
    is_user_idle: bool,
    snooze_count_this_cycle: u32,
    seq: u64,
}

impl View for ReminderService {
    type V = ReminderState;

    closed spec fn view(&self) -> ReminderState {
        ReminderState {
            phase: self.phase,
            last_tick_at: self.last_tick_at,
            menu_bar_minutes: self.menu_bar_minutes,
            is_waiting_for_presentation: self.is_waiting_for_presentation,
            is_user_idle: self.is_user_idle,
            snooze_count_this_cycle: self.snooze_count_this_cycle,
            seq: self.seq,
        }
    }
}

/// The deadline of a work cycle that starts at `now`.
pub fn next_deadline(now: i64, interval_minutes: i64) -> (res: i64)
    requires
        i64::MIN <= interval_minutes * MINUTE_MS <= i64::MAX,
        i64::MIN <= spec_next_deadline(now as int, interval_minutes as int) <= i64::MAX,
    ensures
        res == spec_next_deadline(now as int, interval_minutes as int),
{
    now + interval_minutes * MINUTE_MS
}

/// How far one tick postpones the pending deadline (see [`spec_idle_postponement`]).
pub fn idle_postponement(idle: i64, elapsed: i64, threshold_minutes: i64, enabled: bool) -> (res: i64)
    requires
        i64::MIN <= threshold_minutes * MINUTE_MS <= i64::MAX,
    ensures
        res == spec_idle_postponement(idle as int, elapsed as int, threshold_minutes as int, enabled),
{
    if !enabled || elapsed <= 0 || idle < threshold_minutes * MINUTE_MS {
        return 0;
    }
    if idle < elapsed {
        idle
    } else {
        elapsed
    }
}

fn ceil_minutes_exec(ms: i64) -> (res: i64)
    ensures
        res == ceil_minutes(ms as int),
{
    if ms <= 0 {
        0
    } else {
        let q = ms / MINUTE_MS;
        let r = ms % MINUTE_MS;
        if r == 0 {
            q
        } else {
            q + 1
        }
    }
}

impl ReminderService {
    /// A machine at `now`: working, with the deadline one interval ahead.
    pub fn new(now: i64, s: &Settings) -> (res: ReminderService)
        requires
            time_ok(now as int),
            s@.timing_in_range(),
        ensures
            res@ == (ReminderState {
                phase: Phase::Working {
                    deadline: spec_next_deadline(now as int, s.reminder_interval_minutes as int) as i64,
                },
                last_tick_at: now,
                menu_bar_minutes: Some(s.reminder_interval_minutes),
                is_waiting_for_presentation: false,
                is_user_idle: false,
                snooze_count_this_cycle: 0,
                seq: 0,
            }),
            state_ok(res@),
    {
        let interval = s.reminder_interval_minutes;
        ReminderService {
            phase: Phase::Working { deadline: next_deadline(now, interval) },
            last_tick_at: now,
            menu_bar_minutes: Some(interval),
            is_waiting_for_presentation: false,
            is_user_idle: false,
            snooze_count_this_cycle: 0,
            seq: 0,
        }
    }

    /// Nothing to set up: ticks arrive from the caller.
    pub fn start(&mut self)
        ensures
            final(self)@ == old(self)@,
    {
    }

    fn publish_menu_minutes(&mut self, mins: i64)
        ensures
            final(self)@ == published(old(self)@, mins as int),
    {
        let clamped = if mins < 0 {
            0
        } else {
            mins
        };
        let same = match self.menu_bar_minutes {
            Some(m) => m == clamped,
            None => false,
        };
        if !same {
            self.menu_bar_minutes = Some(clamped);
            self.seq = if self.seq == u64::MAX {
                0
            } else {
                self.seq + 1
            };
        }
    }

    /// Starts a new work cycle at `now`: deadline one interval ahead, snooze
    /// count back to zero, nothing waiting.
    pub fn restart_work_cycle(&mut self, now: i64, s: &Settings)
        requires
            time_ok(now as int),
            s@.timing_in_range(),
            state_ok(old(self)@),
        ensures
            final(self)@ == restarted(old(self)@, now as int, s@),
            state_ok(final(self)@),
    {
        let interval = s.reminder_interval_minutes;
        self.is_waiting_for_presentation = false;
        self.snooze_count_this_cycle = 0;
        self.publish_menu_minutes(interval);
        self.phase = Phase::Working { deadline: next_deadline(now, interval) };
    }

    fn fire_reminder(&mut self, now: i64, s: &Settings) -> (sound: bool)
        requires
            time_ok(now as int),
            s@.timing_in_range(),
        ensures
            (final(self)@, sound) == fired(old(self)@, now as int, s@),
    {
        self.is_waiting_for_presentation = false;
        let auto = if s.auto_start_break {
            Some(now + s.auto_start_break_delay_seconds * SECOND_MS)
        } else {
            None
        };
        self.phase = Phase::Reminding { auto_break_at: auto };
        s.sound_enabled
    }

    /// Starts a break at `now`; a running break is left as it is.
    pub fn start_break(&mut self, now: i64, s: &Settings)
        requires
            time_ok(now as int),
            s@.timing_in_range(),
            state_ok(old(self)@),
        ensures
            final(self)@ == break_started(old(self)@, now as int, s@),
            state_ok(final(self)@),
    {
        if self.phase.is_breaking() {
            return;
        }
        self.phase = Phase::Breaking {
            started_at: now,
            duration_ms: s.break_duration_minutes * MINUTE_MS,
        };
    }

    /// Delays the showing reminder by the snooze length (not a full
    /// interval) and counts the snooze; outside a reminder nothing changes.
    /// There is no limit on snoozes.
    pub fn snooze(&mut self, now: i64, s: &Settings)
        requires
            time_ok(now as int),
            s@.timing_in_range(),
            state_ok(old(self)@),
        ensures
            final(self)@ == snoozed(old(self)@, now as int, s@),
            state_ok(final(self)@),
    {
        if let Phase::Reminding { .. } = self.phase {
            self.snooze_count_this_cycle = if self.snooze_count_this_cycle == u32::MAX {
                0
            } else {
                self.snooze_count_this_cycle + 1
            };
            self.phase = Phase::Snoozing {
                deadline: now + s.snooze_minutes * MINUTE_MS,
                snooze_count: self.snooze_count_this_cycle,
            };
        }
    }

    /// The break ran its course: a new work cycle starts.
    pub fn complete_break(&mut self, now: i64, s: &Settings)
        requires
            time_ok(now as int),
            s@.timing_in_range(),
            state_ok(old(self)@),
        ensures
            final(self)@ == restarted(old(self)@, now as int, s@),
            state_ok(final(self)@),
    {
        self.restart_work_cycle(now, s);
    }

    /// The break was ended early: a new work cycle starts at once.
    pub fn skip_break(&mut self, now: i64, s: &Settings)
        requires
            time_ok(now as int),
            s@.timing_in_range(),
            state_ok(old(self)@),
        ensures
            final(self)@ == restarted(old(self)@, now as int, s@),
            state_ok(final(self)@),
    {
        self.restart_work_cycle(now, s);
    }

    /// Pauses reminders.
    pub fn pause(&mut self)
        requires
            state_ok(old(self)@),
        ensures
            final(self)@ == paused(old(self)@),
            state_ok(final(self)@),
    {
        if self.phase == Phase::Paused {
            return;
        }
        self.phase = Phase::Paused;
    }

    /// Resumes reminders: a paused machine starts a new work cycle at `now`.
    pub fn resume(&mut self, now: i64, s: &Settings)
        requires
            time_ok(now as int),
            s@.timing_in_range(),
            state_ok(old(self)@),
        ensures
            final(self)@ == resumed(old(self)@, now as int, s@),
            state_ok(final(self)@),
    {
        if self.phase == Phase::Paused {
            self.restart_work_cycle(now, s);
        }
    }

    /// Shows the reminder at once (demonstration mode); the result tells
    /// whether the chime plays.
    pub fn demo_trigger(&mut self, now: i64, s: &Settings) -> (sound: bool)
        requires
            time_ok(now as int),
            s@.timing_in_range(),
            state_ok(old(self)@),
        ensures
            (final(self)@, sound) == fired(old(self)@, now as int, s@),
            state_ok(final(self)@),
    {
        self.fire_reminder(now, s)
    }

    /// The interval setting changed: the work cycle starts over from `now`.
    pub fn on_interval_changed(&mut self, now: i64, s: &Settings)
        requires
            time_ok(now as int),
            s@.timing_in_range(),
            state_ok(old(self)@),
        ensures
            final(self)@ == restarted(old(self)@, now as int, s@),
            state_ok(final(self)@),
    {
        self.restart_work_cycle(now, s);
    }

    /// One tick at `now`: `idle` is the time since the last keyboard or mouse
    /// input, `blocked` whether a reminder could not be seen now (locked
    /// screen, screensaver, sleeping display). The result tells whether the
    /// reminder chime plays. Every transition the tick makes (a reminder, a
    /// break, a new cycle) is stamped with this same `now`: the caller reads
    /// the clock once per tick.
    pub fn handle_tick(&mut self, now: i64, idle: i64, blocked: bool, s: &Settings) -> (sound: bool)
        requires
            time_ok(now as int),
            s@.timing_in_range(),
            state_ok(old(self)@),
        ensures
            (final(self)@, sound) == spec_tick(old(self)@, now as int, idle as int, blocked, s@),
            state_ok(final(self)@),
    {
        let elapsed = now - self.last_tick_at;
        self.last_tick_at = now;
        let postpone = idle_postponement(
            idle,
            elapsed,
            s.idle_threshold_minutes,
            s.activity_based_timing,
        );
        self.is_user_idle = s.activity_based_timing && idle >= s.idle_threshold_minutes
            * MINUTE_MS;
        match self.phase {
            Phase::Working { deadline } | Phase::Snoozing { deadline, .. } => {
                let d = if deadline > i64::MAX - postpone {
                    i64::MAX
                } else {
                    deadline + postpone
                };
                if postpone > 0 {
                    self.phase = match self.phase {
                        Phase::Snoozing { snooze_count, .. } => Phase::Snoozing {
                            deadline: d,
                            snooze_count,
                        },
                        _ => Phase::Working { deadline: d },
                    };
                }
                if d <= now {
                    if blocked {
                        self.is_waiting_for_presentation = true;
                        false
                    } else {
                        self.fire_reminder(now, s)
                    }
                } else {
                    self.is_waiting_for_presentation = false;
                    let mins = ceil_minutes_exec(d - now);
                    self.publish_menu_minutes(mins);
                    false
                }
            },
            Phase::Breaking { started_at, duration_ms } => {
                let session = BreakSession { started_at, duration_ms };
                let left = session.remaining(now);
                if left <= 0 {
                    self.restart_work_cycle(now, s);
                } else {
                    let mins = ceil_minutes_exec(left);
                    self.publish_menu_minutes(mins);
                }
                false
            },
            Phase::Reminding { auto_break_at } => {
                if let Some(at) = auto_break_at {
                    if now >= at {
                        self.start_break(now, s);
                    }
                }
                false
            },
            Phase::Paused => false,
        }
    }

    /// The current phase.
    pub fn phase(&self) -> (res: Phase)
        ensures
            res == self@.phase,
    {
        self.phase
    }

    /// Snoozes in the current work cycle.
    pub fn snooze_count_this_cycle(&self) -> (res: u32)
        ensures
            res == self@.snooze_count_this_cycle,
    {
        self.snooze_count_this_cycle
    }

    /// What the front end and the tray are shown at `now`.
    pub fn snapshot(&self, now: i64, s: &Settings) -> (res: Snapshot)
        ensures
            res == spec_snapshot(self@, now as int, s@),
    {
        Snapshot {
            seq: self.seq,
            phase: self.phase,
            menu_bar_minutes: self.menu_bar_minutes,
            is_waiting_for_presentation: self.is_waiting_for_presentation,
            is_user_idle: self.is_user_idle,
            break_duration_minutes: s.break_duration_minutes,
            snooze_minutes: s.snooze_minutes,
            auto_start_break: s.auto_start_break,
            auto_start_break_delay_seconds: s.auto_start_break_delay_seconds,
            server_now: now,
        }
    }

    /// After a user action: a snapshot under a new version number (an action
    /// always changes what the interface shows).
    pub fn snapshot_after_action(&mut self, now: i64, s: &Settings) -> (res: Snapshot)
        ensures
            final(self)@ == (ReminderState { seq: next_seq(old(self)@.seq), ..old(self)@ }),
            res == spec_snapshot(final(self)@, now as int, s@),
    {
        self.seq = if self.seq == u64::MAX {
            0
        } else {
            self.seq + 1
        };
        self.snapshot(now, s)
    }
}

} // verus!

verus! {

/// A tick that finds the pending deadline (after any idle postponement)
/// reached, with the screen visible, shows the reminder: one reminder for
/// one expired deadline, however long the machine slept.
pub proof fn lemma_expired_deadline_fires(
    st: ReminderState,
    now: int,
    idle: int,
    s: SettingsView,
    d: i64,
)
    requires
        spec_pending_deadline(st.phase) == Some(d),
        add_capped(
            d as int,
            spec_idle_postponement(
                idle,
                now - st.last_tick_at,
                s.idle_threshold_minutes as int,
                s.activity_based_timing,
            ),
        ) <= now,
    ensures
        spec_tick(st, now, idle, false, s).0.phase is Reminding,
        spec_tick(st, now, idle, false, s).1 == s.sound_enabled,
        !spec_tick(st, now, idle, false, s).0.is_waiting_for_presentation,
{
}

/// While a reminder shows with auto-start off, ticks change nothing about
/// it: no second reminder, no second chime.
pub proof fn lemma_manual_reminder_is_stable(
    st: ReminderState,
    now: int,
    idle: int,
    blocked: bool,
    s: SettingsView,
)
    requires
        st.phase == (Phase::Reminding { auto_break_at: None }),
    ensures
        spec_tick(st, now, idle, blocked, s).0.phase == st.phase,
        !spec_tick(st, now, idle, blocked, s).1,
{
}

/// A reminder due while the screen cannot be seen waits, keeping its
/// deadline; the next tick with the screen visible (and no idle stretch)
/// shows it.
pub proof fn lemma_blocked_reminder_waits_then_shows(
    st: ReminderState,
    now: int,
    now2: int,
    idle: int,
    idle2: int,
    s: SettingsView,
)
    requires
        st.phase is Working,
        st.phase->Working_deadline <= now <= now2,
        spec_idle_postponement(
            idle,
            now - st.last_tick_at,
            s.idle_threshold_minutes as int,
            s.activity_based_timing,
        ) == 0,
        idle2 < s.idle_threshold_minutes * MINUTE_MS,
    ensures
        spec_tick(st, now, idle, true, s).0.phase == st.phase,
        spec_tick(st, now, idle, true, s).0.is_waiting_for_presentation,
        !spec_tick(st, now, idle, true, s).1,
        spec_tick(spec_tick(st, now, idle, true, s).0, now2, idle2, false, s).0.phase is Reminding,
{
}

/// The postponement of one tick is never negative, never more than the
/// tick's own span, and never more than the idle time.
pub proof fn lemma_postponement_bounded(idle: int, elapsed: int, threshold_minutes: int, enabled: bool)
    requires
        threshold_minutes >= 0,
    ensures
        0 <= spec_idle_postponement(idle, elapsed, threshold_minutes, enabled),
        spec_idle_postponement(idle, elapsed, threshold_minutes, enabled) <= if elapsed > 0 {
            elapsed
        } else {
            0
        },
        spec_idle_postponement(idle, elapsed, threshold_minutes, enabled) > 0 ==> spec_idle_postponement(
            idle,
            elapsed,
            threshold_minutes,
            enabled,
        ) <= idle,
{
}

/// Time away does not count down: a tick during which the user stayed idle
/// (past the threshold, usage-based timing on) leaves the time left until the
/// deadline as it was at the previous tick.
pub proof fn lemma_idle_tick_freezes_countdown(
    st: ReminderState,
    now: int,
    idle: int,
    s: SettingsView,
)
    requires
        st.phase is Working,
        s.activity_based_timing,
        s.idle_threshold_minutes >= 0,
        now > st.last_tick_at,
        idle >= now - st.last_tick_at,
        idle >= s.idle_threshold_minutes * MINUTE_MS,
        st.phase->Working_deadline + (now - st.last_tick_at) <= i64::MAX,
        st.phase->Working_deadline > st.last_tick_at,
    ensures
        spec_tick(st, now, idle, false, s).0.phase == (Phase::Working {
            deadline: (st.phase->Working_deadline + (now - st.last_tick_at)) as i64,
        }),
        spec_tick(st, now, idle, false, s).0.phase->Working_deadline - now == st.phase->Working_deadline
            - st.last_tick_at,
        spec_tick(st, now, idle, false, s).0.is_user_idle,
{
}

/// Snoozing delays a showing reminder by the snooze length, not by a full
/// interval, and counts one more snooze; snoozes are not limited.
pub proof fn lemma_snooze_delays_by_snooze_length(st: ReminderState, now: int, s: SettingsView)
    requires
        st.phase is Reminding,
    ensures
        snoozed(st, now, s).phase == (Phase::Snoozing {
            deadline: (now + s.snooze_minutes * MINUTE_MS) as i64,
            snooze_count: next_count(st.snooze_count_this_cycle),
        }),
        snoozed(st, now, s).snooze_count_this_cycle == next_count(st.snooze_count_this_cycle),
{
}

/// Outside a showing reminder, snoozing changes nothing.
pub proof fn lemma_snooze_outside_reminder_is_noop(st: ReminderState, now: int, s: SettingsView)
    requires
        !(st.phase is Reminding),
    ensures
        snoozed(st, now, s) == st,
{
}

/// A new work cycle runs a full interval from now, with no snoozes counted
/// and nothing waiting.
pub proof fn lemma_new_cycle_resets(st: ReminderState, now: int, s: SettingsView)
    ensures
        restarted(st, now, s).phase == (Phase::Working {
            deadline: spec_next_deadline(now, s.reminder_interval_minutes as int) as i64,
        }),
        restarted(st, now, s).snooze_count_this_cycle == 0,
        !restarted(st, now, s).is_waiting_for_presentation,
        restarted(st, now, s).menu_bar_minutes == Some(
            (if s.reminder_interval_minutes < 0 {
                0
            } else {
                s.reminder_interval_minutes
            }) as i64,
        ),
{
}

/// Starting a break twice is starting it once.
pub proof fn lemma_start_break_idempotent(st: ReminderState, now: int, now2: int, s: SettingsView)
    ensures
        break_started(break_started(st, now, s), now2, s) == break_started(st, now, s),
{
}

/// A break runs to its end and then a new work cycle starts from that tick.
pub proof fn lemma_break_end_starts_new_cycle(
    st: ReminderState,
    now: int,
    idle: int,
    blocked: bool,
    s: SettingsView,
)
    requires
        st.phase is Breaking,
        st.phase->started_at + st.phase->duration_ms <= now,
    ensures
        spec_tick(st, now, idle, blocked, s).0.phase == (Phase::Working {
            deadline: spec_next_deadline(now, s.reminder_interval_minutes as int) as i64,
        }),
        spec_tick(st, now, idle, blocked, s).0.snooze_count_this_cycle == 0,
{
}

/// With auto-start on, the break begins once its instant is reached, and
/// not before.
pub proof fn lemma_auto_start_break(
    st: ReminderState,
    now: int,
    idle: int,
    blocked: bool,
    s: SettingsView,
    at: i64,
)
    requires
        st.phase == (Phase::Reminding { auto_break_at: Some(at) }),
    ensures
        now >= at ==> spec_tick(st, now, idle, blocked, s).0.phase == (Phase::Breaking {
            started_at: now as i64,
            duration_ms: (s.break_duration_minutes * MINUTE_MS) as i64,
        }),
        now < at ==> spec_tick(st, now, idle, blocked, s).0.phase == st.phase,
{
}

/// Paused reminders stay paused whatever ticks arrive; resuming starts a full
/// work cycle from the moment of resuming.
pub proof fn lemma_pause_then_resume(
    st: ReminderState,
    now: int,
    idle: int,
    blocked: bool,
    later: int,
    s: SettingsView,
)
    ensures
        spec_tick(paused(st), now, idle, blocked, s).0.phase == Phase::Paused,
        !spec_tick(paused(st), now, idle, blocked, s).1,
        resumed(spec_tick(paused(st), now, idle, blocked, s).0, later, s).phase == (Phase::Working {
            deadline: spec_next_deadline(later, s.reminder_interval_minutes as int) as i64,
        }),
{
}

/// Resuming a machine that is not paused changes nothing.
pub proof fn lemma_resume_unpaused_is_noop(st: ReminderState, now: int, s: SettingsView)
    requires
        st.phase != Phase::Paused,
    ensures
        resumed(st, now, s) == st,
{
}

/// The menu-bar value is never below zero, and the version counter moves
/// exactly when the shown value changes.
pub proof fn lemma_publish_only_on_change(st: ReminderState, mins: int)
    requires
        0 <= mins <= i64::MAX,
    ensures
        published(st, mins).menu_bar_minutes == Some(mins as i64),
        (published(st, mins).seq != st.seq) <==> (st.menu_bar_minutes != Some(mins as i64)),
{
}

/// Time away does not count down, in a work cycle and in a snooze alike: on
/// a tick during which the user has been idle at least the threshold (with
/// usage-based timing on), the pending deadline moves later by the smaller
/// of the idle time and the time since the previous tick (capped at the
/// largest instant), and keeps its kind and snooze count, unless that
/// postponed deadline has come and the reminder can be shown.
pub proof fn lemma_idle_tick_postpones_pending_deadline(
    st: ReminderState,
    now: int,
    idle: int,
    blocked: bool,
    s: SettingsView,
)
    requires
        s.activity_based_timing,
        s.idle_threshold_minutes >= 0,
        now > st.last_tick_at,
        idle >= s.idle_threshold_minutes * 60_000,
    ensures
        ({
            let p = if idle < now - st.last_tick_at {
                idle
            } else {
                now - st.last_tick_at
            };
            let after = spec_tick(st, now, idle, blocked, s).0;
            match st.phase {
                Phase::Working { deadline } => {
                    let d = if deadline + p > i64::MAX {
                        i64::MAX as int
                    } else {
                        deadline + p
                    };
                    (d > now || blocked) ==> after.phase == Phase::Working { deadline: d as i64 }
                },
                Phase::Snoozing { deadline, snooze_count } => {
                    let d = if deadline + p > i64::MAX {
                        i64::MAX as int
                    } else {
                        deadline + p
                    };
                    (d > now || blocked) ==> after.phase == Phase::Snoozing {
                        deadline: d as i64,
                        snooze_count,
                    }
                },
                _ => true,
            }
        }),
{
}

/// The time left in a snooze is not shortened by a tick the user spent away:
/// when the idle time covers the whole tick, the time left after the tick
/// equals the time left at the previous tick.
pub proof fn lemma_idle_tick_freezes_snooze(st: ReminderState, now: int, idle: int, s: SettingsView)
    requires
        st.phase is Snoozing,
        s.activity_based_timing,
        s.idle_threshold_minutes >= 0,
        now > st.last_tick_at,
        idle >= now - st.last_tick_at,
        idle >= s.idle_threshold_minutes * 60_000,
        st.phase->Snoozing_deadline + (now - st.last_tick_at) <= i64::MAX,
        st.phase->Snoozing_deadline > st.last_tick_at,
    ensures
        spec_tick(st, now, idle, false, s).0.phase is Snoozing,
        spec_tick(st, now, idle, false, s).0.phase->Snoozing_deadline - now == st.phase->Snoozing_deadline
            - st.last_tick_at,
        spec_tick(st, now, idle, false, s).0.phase->Snoozing_snooze_count
            == st.phase->Snoozing_snooze_count,
        spec_tick(st, now, idle, false, s).0.is_user_idle,
{
}

/// Without an idle stretch (usage-based timing off, or idle below the
/// threshold), a tick leaves a pending deadline where it is; before it comes,
/// the phase is unchanged, nothing is waiting, no chime plays, and the menu
/// bar shows the whole minutes left, rounded up.
pub proof fn lemma_active_tick_counts_down(
    st: ReminderState,
    now: int,
    idle: int,
    blocked: bool,
    s: SettingsView,
    d: i64,
)
    requires
        time_ok(now),
        !s.activity_based_timing || idle < s.idle_threshold_minutes * 60_000,
        spec_pending_deadline(st.phase) == Some(d),
        d > now,
    ensures
        spec_tick(st, now, idle, blocked, s).0.phase == st.phase,
        !spec_tick(st, now, idle, blocked, s).0.is_waiting_for_presentation,
        !spec_tick(st, now, idle, blocked, s).0.is_user_idle,
        !spec_tick(st, now, idle, blocked, s).1,
        spec_tick(st, now, idle, blocked, s).0.menu_bar_minutes == Some(
            ((d - now + 59_999) / 60_000) as i64,
        ),
        spec_tick(st, now, idle, blocked, s).0.last_tick_at == now,
{
}

/// A reminder that shows at `now` carries the auto-start instant `now` plus
/// the configured delay in seconds when auto-start is on, and none when it
/// is off; the chime plays exactly when sound is on.
pub proof fn lemma_fired_reminder_auto_start(st: ReminderState, now: int, idle: int, s: SettingsView, d: i64)
    requires
        spec_pending_deadline(st.phase) == Some(d),
        !s.activity_based_timing || idle < s.idle_threshold_minutes * 60_000,
        d <= now,
    ensures
        spec_tick(st, now, idle, false, s).0.phase == (Phase::Reminding {
            auto_break_at: if s.auto_start_break {
                Some((now + s.auto_start_break_delay_seconds * 1000) as i64)
            } else {
                None
            },
        }),
        spec_tick(st, now, idle, false, s).1 == s.sound_enabled,
        spec_tick(st, now, idle, true, s).0.phase == st.phase,
        spec_tick(st, now, idle, true, s).0.is_waiting_for_presentation,
        !spec_tick(st, now, idle, true, s).1,
{
}

/// During a break, a tick before its end shows the whole minutes left,
/// rounded up, and changes nothing else about the break; a tick at or after
/// its end starts a new work cycle of one full interval from that tick.
pub proof fn lemma_break_tick(st: ReminderState, now: int, idle: int, blocked: bool, s: SettingsView)
    requires
        st.phase is Breaking,
    ensures
        ({
            let end = st.phase->started_at + st.phase->duration_ms;
            let after = spec_tick(st, now, idle, blocked, s).0;
            &&& end > now ==> after.phase == st.phase && after.menu_bar_minutes == Some(
                ((end - now + 59_999) / 60_000) as i64,
            )
            &&& end <= now ==> after.phase == Phase::Working {
                deadline: (now + s.reminder_interval_minutes * 60_000) as i64,
            } && after.snooze_count_this_cycle == 0 && !after.is_waiting_for_presentation
            &&& !spec_tick(st, now, idle, blocked, s).1
        }),
{
}

/// Snoozing a showing reminder sets the deadline the snooze length in
/// minutes after `now`, one more snooze counted; starting a break sets a
/// break of the configured length from `now`; a new cycle's deadline is one
/// full interval after `now`.
pub proof fn lemma_action_instants(st: ReminderState, now: int, s: SettingsView)
    ensures
        st.phase is Reminding ==> snoozed(st, now, s).phase == (Phase::Snoozing {
            deadline: (now + s.snooze_minutes * 60_000) as i64,
            snooze_count: if st.snooze_count_this_cycle == u32::MAX {
                0
            } else {
                (st.snooze_count_this_cycle + 1) as u32
            },
        }),
        !(st.phase is Breaking) ==> break_started(st, now, s).phase == (Phase::Breaking {
            started_at: now as i64,
            duration_ms: (s.break_duration_minutes * 60_000) as i64,
        }),
        restarted(st, now, s).phase == (Phase::Working {
            deadline: (now + s.reminder_interval_minutes * 60_000) as i64,
        }),
        restarted(st, now, s).snooze_count_this_cycle == 0,
{
}

/// Every tick records its instant as the last tick, and marks the user idle
/// exactly when usage-based timing is on and the idle time has reached the
/// threshold, whatever the phase.
pub proof fn lemma_tick_records_instant_and_idleness(
    st: ReminderState,
    now: int,
    idle: int,
    blocked: bool,
    s: SettingsView,
)
    requires
        time_ok(now),
    ensures
        spec_tick(st, now, idle, blocked, s).0.last_tick_at == now,
        spec_tick(st, now, idle, blocked, s).0.is_user_idle == (s.activity_based_timing && idle
            >= s.idle_threshold_minutes * 60_000),
{
}

/// A snapshot shows the machine's phase, menu-bar minutes, flags and version
/// as they are, the break, snooze and auto-start settings as configured, and
/// the instant it was taken; the version after a user action is one more
/// (wrapping at 64 bits).
pub proof fn lemma_snapshot_shows_state(st: ReminderState, now: int, s: SettingsView)
    requires
        time_ok(now),
    ensures
        spec_snapshot(st, now, s).seq == st.seq,
        spec_snapshot(st, now, s).phase == st.phase,
        spec_snapshot(st, now, s).menu_bar_minutes == st.menu_bar_minutes,
        spec_snapshot(st, now, s).is_waiting_for_presentation == st.is_waiting_for_presentation,
        spec_snapshot(st, now, s).is_user_idle == st.is_user_idle,
        spec_snapshot(st, now, s).break_duration_minutes == s.break_duration_minutes,
        spec_snapshot(st, now, s).snooze_minutes == s.snooze_minutes,
        spec_snapshot(st, now, s).auto_start_break == s.auto_start_break,
        spec_snapshot(st, now, s).auto_start_break_delay_seconds == s.auto_start_break_delay_seconds,
        spec_snapshot(st, now, s).server_now == now,
        next_seq(st.seq) == (st.seq + 1) % 0x1_0000_0000_0000_0000,
{
}

} // verus!
