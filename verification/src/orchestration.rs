//! Decisions of the running application that do not touch the system: what a
//! phase change does to the reminder window and the wallpaper, what a menu
//! item does, and which side effect a settings change needs.

use crate::l10n::{spec_parse_lang, spec_storage_key, Lang};
use crate::reminder::Phase;
use crate::text::str_eq;
use vstd::prelude::*;

verus! {

/// During a break the wallpaper changes every 25 seconds.
pub const BREAK_ROTATION_MS: u64 = 25_000;

/// Whether two phases are of the same kind (same tag).
pub open spec fn same_kind(a: Phase, b: Phase) -> bool {
    match (a, b) {
        (Phase::Working { .. }, Phase::Working { .. }) => true,
        (Phase::Snoozing { .. }, Phase::Snoozing { .. }) => true,
        (Phase::Reminding { .. }, Phase::Reminding { .. }) => true,
        (Phase::Breaking { .. }, Phase::Breaking { .. }) => true,
        (Phase::Paused, Phase::Paused) => true,
        _ => false,
    }
}

fn same_kind_exec(a: &Phase, b: &Phase) -> (res: bool)
    ensures
        res == same_kind(*a, *b),
{
    match (a, b) {
        (Phase::Working { .. }, Phase::Working { .. }) => true,
        (Phase::Snoozing { .. }, Phase::Snoozing { .. }) => true,
        (Phase::Reminding { .. }, Phase::Reminding { .. }) => true,
        (Phase::Breaking { .. }, Phase::Breaking { .. }) => true,
        (Phase::Paused, Phase::Paused) => true,
        _ => false,
    }
}

/// What the reminder window and wallpaper should do after a tick or action.
#[derive(Debug, Clone, Copy, PartialEq, Eq, Structural)]
pub enum WindowCommand {
    /// A reminder just fired: switch to the next ready wallpaper, then show the window.
    ShowReminder,
    /// A break just started: keep the window shown (show it if hidden).
    EnsureVisible,
    /// The reminder or break ended: hide the window.
    HideReminder,
    /// A break goes on and 25 seconds passed: switch the wallpaper.
    RotateWallpaper,
    /// Nothing to do.
    Nothing,
}

/// The window orchestration state: the kind of the last phase seen, and when
/// the break wallpaper last changed (0: not yet during this break).
#[derive(Debug, Clone, Copy, PartialEq, Eq, Structural)]
pub struct Orchestrator {
    pub prev_phase: Option<Phase>,
    pub last_break_advance_ms: u64,
}

/// The orchestration step for `phase` at `now_ms`: only a change of phase kind
/// acts on the window; within a break the wallpaper rotates every 25 seconds.
pub open spec fn spec_orchestrate(o: Orchestrator, phase: Phase, now_ms: u64) -> (Orchestrator, WindowCommand) {
    let changed = match o.prev_phase {
        Some(p) => !same_kind(p, phase),
        None => true,
    };
    let o1 = Orchestrator { prev_phase: Some(phase), ..o };
    if !changed {
        if phase is Breaking {
            if o.last_break_advance_ms == 0 {
                (Orchestrator { last_break_advance_ms: now_ms, ..o1 }, WindowCommand::Nothing)
            } else if now_ms - o.last_break_advance_ms >= BREAK_ROTATION_MS {
                (Orchestrator { last_break_advance_ms: now_ms, ..o1 }, WindowCommand::RotateWallpaper)
            } else {
                (o1, WindowCommand::Nothing)
            }
        } else {
            (o1, WindowCommand::Nothing)
        }
    } else {
        match phase {
            Phase::Reminding { .. } => (
                Orchestrator { last_break_advance_ms: 0, ..o1 },
                WindowCommand::ShowReminder,
            ),
            Phase::Breaking { .. } => (
                Orchestrator { last_break_advance_ms: now_ms, ..o1 },
                WindowCommand::EnsureVisible,
            ),
            _ => (o1, WindowCommand::HideReminder),
        }
    }
}

impl Orchestrator {
    /// Whether a step for `phase` compares the time since the last wallpaper
    /// change (a break that goes on, after its first rotation point).
    pub open spec fn rotation_due_check(self, phase: Phase) -> bool {
        &&& self.prev_phase matches Some(p) && same_kind(p, phase)
        &&& phase is Breaking
        &&& self.last_break_advance_ms != 0
    }

    /// Whether [`Orchestrator::orchestrate`] may take `phase` at `now_ms`: a
    /// running break's rotation check needs the clock not to have gone back.
    pub fn can_step(&self, phase: &Phase, now_ms: u64) -> (res: bool)
        ensures
            res == (self.rotation_due_check(*phase) ==> self.last_break_advance_ms <= now_ms),
    {
        let continues = match &self.prev_phase {
            Some(p) => same_kind_exec(p, phase),
            None => false,
        };
        !(continues && phase.is_breaking() && self.last_break_advance_ms != 0)
            || self.last_break_advance_ms <= now_ms
    }

    /// Nothing seen yet.
    pub fn new() -> (res: Orchestrator)
        ensures
            res.prev_phase is None,
            res.last_break_advance_ms == 0,
    {
        Orchestrator { prev_phase: None, last_break_advance_ms: 0 }
    }

    /// One step for the phase just reached at `now_ms` (see [`spec_orchestrate`]).
    pub fn orchestrate(&mut self, phase: Phase, now_ms: u64) -> (res: WindowCommand)
        requires
            old(self).rotation_due_check(phase) ==> old(self).last_break_advance_ms <= now_ms,
        ensures
            (*final(self), res) == spec_orchestrate(*old(self), phase, now_ms),
    {
        let changed = match &self.prev_phase {
            Some(p) => !same_kind_exec(p, &phase),
            None => true,
        };
        self.prev_phase = Some(phase);
        if !changed {
            if phase.is_breaking() {
                if self.last_break_advance_ms == 0 {
                    self.last_break_advance_ms = now_ms;
                    WindowCommand::Nothing
                } else if now_ms - self.last_break_advance_ms >= BREAK_ROTATION_MS {
                    self.last_break_advance_ms = now_ms;
                    WindowCommand::RotateWallpaper
                } else {
                    WindowCommand::Nothing
                }
            } else {
                WindowCommand::Nothing
            }
        } else {
            match phase {
                Phase::Reminding { .. } => {
                    self.last_break_advance_ms = 0;
                    WindowCommand::ShowReminder
                },
                Phase::Breaking { .. } => {
                    self.last_break_advance_ms = now_ms;
                    WindowCommand::EnsureVisible
                },
                _ => WindowCommand::HideReminder,
            }
        }
    }
}

/// What a tray menu item does.
#[derive(Debug, Clone, Copy, PartialEq, Eq, Structural)]
pub enum MenuAction {
    StartBreak,
    Pause,
    Resume,
    OpenSettings,
    Quit,
    Ignore,
}

/// The action of the menu item `id`; the pause item resumes when paused.
pub open spec fn spec_menu_action(id: Seq<char>, is_paused: bool) -> MenuAction {
    if id == "break-now"@ {
        MenuAction::StartBreak
    } else if id == "pause-toggle"@ {
        if is_paused {
            MenuAction::Resume
        } else {
            MenuAction::Pause
        }
    } else if id == "open-settings"@ {
        MenuAction::OpenSettings
    } else if id == "quit"@ {
        MenuAction::Quit
    } else {
        MenuAction::Ignore
    }
}

/// The action of a menu item (see [`spec_menu_action`]).
pub fn menu_action(id: &str, is_paused: bool) -> (res: MenuAction)
    ensures
        res == spec_menu_action(id@, is_paused),
{
    if str_eq(id, "break-now") {
        MenuAction::StartBreak
    } else if str_eq(id, "pause-toggle") {
        if is_paused {
            MenuAction::Resume
        } else {
            MenuAction::Pause
        }
    } else if str_eq(id, "open-settings") {
        MenuAction::OpenSettings
    } else if str_eq(id, "quit") {
        MenuAction::Quit
    } else {
        MenuAction::Ignore
    }
}

/// The side effect a settings change calls for.
#[derive(Debug, Clone, Copy, PartialEq, Eq, Structural)]
pub enum SettingEffect {
    /// Restart the work cycle (after a short debounce).
    RestartCycle,
    /// Apply the window opacity to a showing reminder window.
    ApplyOpacity,
    /// Raise or lower the reminder window's level.
    ApplyOverlay,
    /// Register or unregister launch at login.
    SyncLaunchAtLogin,
    /// Drop the pending download and fetch from the new address.
    RefetchWallpaper,
    NoEffect,
}

/// The side effect of changing the setting `key`.
pub open spec fn spec_setting_effect(key: Seq<char>) -> SettingEffect {
    if key == "reminderIntervalMinutes"@ {
        SettingEffect::RestartCycle
    } else if key == "reminderWindowOpacity"@ {
        SettingEffect::ApplyOpacity
    } else if key == "overlayOtherWindows"@ {
        SettingEffect::ApplyOverlay
    } else if key == "launchAtLogin"@ {
        SettingEffect::SyncLaunchAtLogin
    } else if key == "wallpaperImageURLString"@ {
        SettingEffect::RefetchWallpaper
    } else {
        SettingEffect::NoEffect
    }
}

/// The side effect of changing a setting (see [`spec_setting_effect`]).
pub fn setting_effect(key: &str) -> (res: SettingEffect)
    ensures
        res == spec_setting_effect(key@),
{
    if str_eq(key, "reminderIntervalMinutes") {
        SettingEffect::RestartCycle
    } else if str_eq(key, "reminderWindowOpacity") {
        SettingEffect::ApplyOpacity
    } else if str_eq(key, "overlayOtherWindows") {
        SettingEffect::ApplyOverlay
    } else if str_eq(key, "launchAtLogin") {
        SettingEffect::SyncLaunchAtLogin
    } else if str_eq(key, "wallpaperImageURLString") {
        SettingEffect::RefetchWallpaper
    } else {
        SettingEffect::NoEffect
    }
}

/// Choosing the interface language: the stored key of the requested
/// language, and whether it differs from the current one.
pub fn language_update(current: &str, requested: &str) -> (res: (&'static str, bool))
    ensures
        res.0@ == spec_storage_key(spec_parse_lang(requested@)),
        res.1 == (current@ != res.0@),
{
    let key = Lang::parse(requested).storage_key();
    (key, !str_eq(current, key))
}

/// Launch at login: `Some(desired)` when the registration must change, `None`
/// when it already matches.
pub fn launch_at_login_toggle(enabled: bool, desired: bool) -> (res: Option<bool>)
    ensures
        res == (if enabled == desired {
            None
        } else {
            Some(desired)
        }),
{
    if enabled == desired {
        None
    } else {
        Some(desired)
    }
}

/// A phase change is acted on once: a second step with the same kind of
/// phase does not show or hide the window again.
pub proof fn lemma_window_acts_once_per_change(o: Orchestrator, phase: Phase, p2: Phase, now: u64, now2: u64)
    requires
        same_kind(phase, p2),
        !(p2 is Breaking),
    ensures
        spec_orchestrate(spec_orchestrate(o, phase, now).0, p2, now2).1 == WindowCommand::Nothing,
{
}

/// The kind of a phase, numbered: working, snoozing, reminding, breaking,
/// paused.
pub open spec fn phase_kind(p: Phase) -> int {
    match p {
        Phase::Working { .. } => 0,
        Phase::Snoozing { .. } => 1,
        Phase::Reminding { .. } => 2,
        Phase::Breaking { .. } => 3,
        Phase::Paused => 4,
    }
}

/// What a step does to the window: on entering a reminder, switch the
/// wallpaper and show the window (and restart the rotation clock); on
/// entering a break, keep the window visible with the rotation clock at
/// `now`; on entering any other phase (working, snoozing, paused), hide the
/// window. A step that stays in the same kind of phase touches no window;
/// within a break it switches the wallpaper once 25 seconds have passed since
/// the last switch (the first such step only starts the clock). Every step
/// remembers the phase it saw.
pub proof fn lemma_orchestrate_commands(o: Orchestrator, phase: Phase, now: u64)
    requires
        o.rotation_due_check(phase) ==> o.last_break_advance_ms <= now,
    ensures
        ({
            let (o2, cmd) = spec_orchestrate(o, phase, now);
            let entered = match o.prev_phase {
                Some(p) => phase_kind(p) != phase_kind(phase),
                None => true,
            };
            &&& o2.prev_phase == Some(phase)
            &&& entered && phase_kind(phase) == 2 ==> cmd == WindowCommand::ShowReminder
                && o2.last_break_advance_ms == 0
            &&& entered && phase_kind(phase) == 3 ==> cmd == WindowCommand::EnsureVisible
                && o2.last_break_advance_ms == now
            &&& entered && phase_kind(phase) != 2 && phase_kind(phase) != 3 ==> cmd
                == WindowCommand::HideReminder && o2.last_break_advance_ms == o.last_break_advance_ms
            &&& !entered && phase_kind(phase) != 3 ==> cmd == WindowCommand::Nothing
                && o2.last_break_advance_ms == o.last_break_advance_ms
            &&& !entered && phase_kind(phase) == 3 && o.last_break_advance_ms == 0 ==> cmd
                == WindowCommand::Nothing && o2.last_break_advance_ms == now
            &&& !entered && phase_kind(phase) == 3 && o.last_break_advance_ms != 0 && now
                >= o.last_break_advance_ms + 25_000 ==> cmd == WindowCommand::RotateWallpaper
                && o2.last_break_advance_ms == now
            &&& !entered && phase_kind(phase) == 3 && o.last_break_advance_ms != 0 && now
                < o.last_break_advance_ms + 25_000 ==> cmd == WindowCommand::Nothing
                && o2.last_break_advance_ms == o.last_break_advance_ms
        }),
{
}

} // verus!
