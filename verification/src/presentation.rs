//! What the menu bar and its menu show for a snapshot: the bar label, the
//! status line and the pause/resume item.

use crate::l10n::{fill, spec_tr, tf, tr, Lang};
use crate::reminder::{
    ceil_minutes, spec_remaining, spec_snapshot, state_ok, time_ok, Phase, ReminderState,
    Snapshot, MINUTE_MS,
};
use crate::settings::SettingsView;
use crate::text::{int_text, int_to_string, push_char};
use vstd::prelude::*;

verus! {

/// The texts of the tray: bar label, status line, pause/resume item.
#[derive(Debug, Clone, PartialEq)]
pub struct TrayView {
    pub bar_label: String,
    pub status_title: String,
    pub pause_label: String,
}

/// The time left in a phase at `now` is representable: the deadline (or the
/// end of the break) minus `now` fits in 64 bits.
pub open spec fn phase_fits(p: Phase, now: int) -> bool {
    match p {
        Phase::Working { deadline } => i64::MIN <= deadline - now <= i64::MAX,
        Phase::Snoozing { deadline, .. } => i64::MIN <= deadline - now <= i64::MAX,
        Phase::Breaking { started_at, duration_ms } => {
            &&& i64::MIN <= started_at + duration_ms <= i64::MAX
            &&& i64::MIN <= started_at + duration_ms - now <= i64::MAX
        },
        _ => true,
    }
}

/// Whole minutes left at `now` until the phase's end point (deadline or end
/// of break), rounded up and never below zero; zero for other phases.
pub open spec fn minutes_left(p: Phase, now: int) -> int {
    match p {
        Phase::Working { deadline } => ceil_minutes(deadline - now),
        Phase::Snoozing { deadline, .. } => ceil_minutes(deadline - now),
        Phase::Breaking { started_at, duration_ms } => ceil_minutes(
            spec_remaining(started_at + duration_ms, now),
        ),
        _ => 0,
    }
}

/// A minute count as the bar shows it, e.g. `43m`.
pub open spec fn minutes_label(m: int) -> Seq<char> {
    int_text(m) + seq!['m']
}

/// The menu-bar label: `⏸` when paused, `!` when a reminder shows or waits to
/// show, otherwise the minutes left.
pub open spec fn spec_bar_label(snap: Snapshot, now: int) -> Seq<char> {
    match snap.phase {
        Phase::Paused => seq!['\u{23F8}'],
        Phase::Reminding { .. } => seq!['!'],
        Phase::Working { .. } => if snap.is_waiting_for_presentation {
            seq!['!']
        } else {
            minutes_label(minutes_left(snap.phase, now))
        },
        _ => minutes_label(minutes_left(snap.phase, now)),
    }
}

/// The minute parameter of a status text.
pub open spec fn minute_param(m: int) -> Seq<(Seq<char>, Seq<char>)> {
    seq![("m"@, int_text(m))]
}

/// The status line in `lang`.
pub open spec fn spec_status_title(lang: Lang, snap: Snapshot, now: int) -> Seq<char> {
    let m = minutes_left(snap.phase, now);
    match snap.phase {
        Phase::Paused => spec_tr(lang, "statusPaused"@),
        Phase::Reminding { .. } => spec_tr(lang, "statusReminding"@),
        Phase::Breaking { .. } => fill(spec_tr(lang, "statusBreaking"@), minute_param(m)),
        _ => if snap.is_user_idle {
            spec_tr(lang, "statusIdle"@)
        } else if snap.is_waiting_for_presentation {
            spec_tr(lang, "statusWaiting"@)
        } else if snap.phase is Working {
            fill(spec_tr(lang, "statusNextBreak"@), minute_param(m))
        } else {
            fill(spec_tr(lang, "statusSnoozed"@), minute_param(m))
        },
    }
}

/// The pause/resume item's text.
pub open spec fn spec_pause_label(lang: Lang, is_paused: bool) -> Seq<char> {
    if is_paused {
        spec_tr(lang, "menuResume"@)
    } else {
        spec_tr(lang, "menuPause"@)
    }
}

fn minutes_left_exec(p: Phase, now: i64) -> (res: i64)
    requires
        phase_fits(p, now as int),
    ensures
        res == minutes_left(p, now as int),
        0 <= res,
{
    let span: i64 = match p {
        Phase::Working { deadline } => deadline - now,
        Phase::Snoozing { deadline, .. } => deadline - now,
        Phase::Breaking { started_at, duration_ms } => {
            let left = started_at + duration_ms - now;
            if left > 0 {
                left
            } else {
                0
            }
        },
        _ => 0,
    };
    if span <= 0 {
        0
    } else {
        let q = span / MINUTE_MS;
        if span % MINUTE_MS == 0 {
            q
        } else {
            q + 1
        }
    }
}

fn minutes_label_exec(m: i64) -> (res: String)
    ensures
        res@ == minutes_label(m as int),
{
    let mut out = int_to_string(m);
    push_char(&mut out, 'm');
    out
}

/// The menu-bar label at `now`.
pub fn bar_label(snap: &Snapshot, now: i64) -> (res: String)
    requires
        phase_fits(snap.phase, now as int),
    ensures
        res@ == spec_bar_label(*snap, now as int),
{
    match snap.phase {
        Phase::Paused => {
            let mut out = String::new();
            push_char(&mut out, '\u{23F8}');
            out
        },
        Phase::Reminding { .. } => {
            let mut out = String::new();
            push_char(&mut out, '!');
            out
        },
        Phase::Working { .. } => {
            if snap.is_waiting_for_presentation {
                let mut out = String::new();
                push_char(&mut out, '!');
                out
            } else {
                minutes_label_exec(minutes_left_exec(snap.phase, now))
            }
        },
        _ => minutes_label_exec(minutes_left_exec(snap.phase, now)),
    }
}

fn with_minutes(lang: Lang, key: &str, m: i64) -> (res: String)
    ensures
        res@ == fill(spec_tr(lang, key@), minute_param(m as int)),
{
    let params = [("m", int_to_string(m))];
    let res = tf(lang, key, &params);
    assert(crate::l10n::params_text(params@) =~= minute_param(m as int));
    res
}

/// The status line at `now` in `lang`.
pub fn status_title(lang: Lang, snap: &Snapshot, now: i64) -> (res: String)
    requires
        phase_fits(snap.phase, now as int),
    ensures
        res@ == spec_status_title(lang, *snap, now as int),
{
    let m = minutes_left_exec(snap.phase, now);
    match snap.phase {
        Phase::Paused => tr(lang, "statusPaused"),
        Phase::Reminding { .. } => tr(lang, "statusReminding"),
        Phase::Breaking { .. } => with_minutes(lang, "statusBreaking", m),
        Phase::Working { .. } => {
            if snap.is_user_idle {
                tr(lang, "statusIdle")
            } else if snap.is_waiting_for_presentation {
                tr(lang, "statusWaiting")
            } else {
                with_minutes(lang, "statusNextBreak", m)
            }
        },
        Phase::Snoozing { .. } => {
            if snap.is_user_idle {
                tr(lang, "statusIdle")
            } else if snap.is_waiting_for_presentation {
                tr(lang, "statusWaiting")
            } else {
                with_minutes(lang, "statusSnoozed", m)
            }
        },
    }
}

/// The pause/resume item: "resume" when paused, "pause" otherwise.
pub fn pause_label(lang: Lang, is_paused: bool) -> (res: String)
    ensures
        res@ == spec_pause_label(lang, is_paused),
{
    if is_paused {
        tr(lang, "menuResume")
    } else {
        tr(lang, "menuPause")
    }
}

/// Bar label, status line and pause item for a snapshot at `now`.
pub fn compute_tray_view(lang: Lang, snap: &Snapshot, now: i64) -> (res: TrayView)
    requires
        phase_fits(snap.phase, now as int),
    ensures
        res.bar_label@ == spec_bar_label(*snap, now as int),
        res.status_title@ == spec_status_title(lang, *snap, now as int),
        res.pause_label@ == spec_pause_label(lang, snap.phase == Phase::Paused),
{
    let bar = bar_label(snap, now);
    let status = status_title(lang, snap, now);
    let is_paused = match snap.phase {
        Phase::Paused => true,
        _ => false,
    };
    TrayView { bar_label: bar, status_title: status, pause_label: pause_label(lang, is_paused) }
}

} // verus!

verus! {

/// The bar shows `!` exactly when a reminder is showing or waiting to show,
/// and `⏸` exactly when paused; otherwise it shows minutes.
pub proof fn lemma_bar_label_alert(snap: Snapshot, now: int)
    ensures
        (spec_bar_label(snap, now) == seq!['!']) <==> (snap.phase is Reminding || (
        snap.phase is Working && snap.is_waiting_for_presentation)),
        (spec_bar_label(snap, now) == seq!['\u{23F8}']) <==> snap.phase is Paused,
{
    let m = minutes_left(snap.phase, now);
    if m >= 0 {
        crate::text::lemma_decimal_starts_with_digit(m as nat);
        let l = minutes_label(m);
        assert(l.len() >= 2);
    }
    assert(seq!['!'] != seq!['\u{23F8}']) by {
        assert(seq!['!'][0] != seq!['\u{23F8}'][0]);
    }
}

/// A snapshot of a state the reminder machine keeps, taken at an accepted
/// instant, always fits the tray's arithmetic: the tray view of every such
/// snapshot can be computed.
pub proof fn lemma_kept_state_fits(st: ReminderState, now: int, s: SettingsView)
    requires
        state_ok(st),
        time_ok(now),
    ensures
        phase_fits(spec_snapshot(st, now, s).phase, now),
{
}

/// Whole minutes in `span` milliseconds, rounded up; zero when nothing is left.
pub open spec fn whole_minutes_up(span: int) -> int {
    if span <= 0 {
        0
    } else {
        (span + 59_999) / 60_000
    }
}

/// The status line: paused and reminding phases have their own texts; in a
/// work cycle or a snooze alike, an idle user sees that the timer is paused,
/// else a reminder waiting to be shown says so, else the minutes left (rounded
/// up) follow "next break" in a work cycle and "delayed" in a snooze; during a
/// break the minutes left of the break.
pub proof fn lemma_status_line(lang: Lang, snap: Snapshot, now: int)
    ensures
        ({
            let t = spec_status_title(lang, snap, now);
            match snap.phase {
                Phase::Paused => t == spec_tr(lang, "statusPaused"@),
                Phase::Reminding { .. } => t == spec_tr(lang, "statusReminding"@),
                Phase::Working { deadline } => if snap.is_user_idle {
                    t == spec_tr(lang, "statusIdle"@)
                } else if snap.is_waiting_for_presentation {
                    t == spec_tr(lang, "statusWaiting"@)
                } else {
                    t == fill(
                        spec_tr(lang, "statusNextBreak"@),
                        seq![("m"@, int_text(whole_minutes_up(deadline - now)))],
                    )
                },
                Phase::Snoozing { deadline, .. } => if snap.is_user_idle {
                    t == spec_tr(lang, "statusIdle"@)
                } else if snap.is_waiting_for_presentation {
                    t == spec_tr(lang, "statusWaiting"@)
                } else {
                    t == fill(
                        spec_tr(lang, "statusSnoozed"@),
                        seq![("m"@, int_text(whole_minutes_up(deadline - now)))],
                    )
                },
                Phase::Breaking { started_at, duration_ms } => t == fill(
                    spec_tr(lang, "statusBreaking"@),
                    seq![("m"@, int_text(whole_minutes_up(started_at + duration_ms - now)))],
                ),
            }
        }),
{
}

/// The menu-bar label shows the minutes left, rounded up and followed by
/// `m`, in a work cycle with nothing waiting, in a snooze and in a break.
pub proof fn lemma_bar_label_minutes(snap: Snapshot, now: int)
    ensures
        ({
            let b = spec_bar_label(snap, now);
            match snap.phase {
                Phase::Working { deadline } => !snap.is_waiting_for_presentation ==> b == int_text(
                    whole_minutes_up(deadline - now),
                ) + seq!['m'],
                Phase::Snoozing { deadline, .. } => b == int_text(whole_minutes_up(deadline - now))
                    + seq!['m'],
                Phase::Breaking { started_at, duration_ms } => b == int_text(
                    whole_minutes_up(started_at + duration_ms - now),
                ) + seq!['m'],
                _ => true,
            }
        }),
{
}

/// The menu offers to resume exactly when paused, and to pause otherwise.
pub proof fn lemma_pause_item(lang: Lang, is_paused: bool)
    ensures
        is_paused ==> spec_pause_label(lang, is_paused) == spec_tr(lang, "menuResume"@),
        !is_paused ==> spec_pause_label(lang, is_paused) == spec_tr(lang, "menuPause"@),
{
}

} // verus!
