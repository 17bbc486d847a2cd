//! Platform activity state shared by every platform: what blocks showing a
//! reminder, and the session events that call for an immediate tick.

use vstd::prelude::*;

verus! {

/// A session event after which the reminder machine ticks at once (so an
/// expired deadline becomes exactly one reminder).
#[derive(Debug, Clone, Copy, PartialEq, Eq, Structural)]
pub enum SessionEvent {
    /// The system woke from sleep.
    SystemWake,
    /// The displays woke.
    ScreensAwake,
    /// The user unlocked the screen.
    Unlocked,
}

/// The three conditions under which a reminder could not be seen.
#[derive(Debug, Clone, Copy, PartialEq, Eq, Structural)]
pub struct ActivityFlags {
    pub screen_locked: bool,
    pub screensaver_active: bool,
    pub screen_asleep: bool,
}

impl Default for ActivityFlags {
    fn default() -> (res: Self)
        ensures
            !res.screen_locked && !res.screensaver_active && !res.screen_asleep,
    {
        ActivityFlags { screen_locked: false, screensaver_active: false, screen_asleep: false }
    }
}

impl ActivityFlags {
    /// Presentation is blocked while the screen is locked, the screensaver
    /// runs or the displays sleep.
    pub fn presentation_blocked(&self) -> (res: bool)
        ensures
            res == (self.screen_locked || self.screensaver_active || self.screen_asleep),
    {
        self.screen_locked || self.screensaver_active || self.screen_asleep
    }

    pub fn set_locked(&mut self, v: bool)
        ensures
            *final(self) == (ActivityFlags { screen_locked: v, ..*old(self) }),
    {
        self.screen_locked = v;
    }

    pub fn set_saver(&mut self, v: bool)
        ensures
            *final(self) == (ActivityFlags { screensaver_active: v, ..*old(self) }),
    {
        self.screensaver_active = v;
    }

    pub fn set_asleep(&mut self, v: bool)
        ensures
            *final(self) == (ActivityFlags { screen_asleep: v, ..*old(self) }),
    {
        self.screen_asleep = v;
    }
}

/// `true` / `false`, as booleans print.
pub open spec fn bool_text(b: bool) -> Seq<char> {
    if b {
        "true"@
    } else {
        "false"@
    }
}

/// The diagnostic line `locked=… saver=… asleep=…`.
pub open spec fn spec_flags_snapshot(f: ActivityFlags) -> Seq<char> {
    "locked="@ + bool_text(f.screen_locked) + " saver="@ + bool_text(f.screensaver_active)
        + " asleep="@ + bool_text(f.screen_asleep)
}

fn append_bool(out: &mut String, b: bool)
    ensures
        final(out)@ == old(out)@ + bool_text(b),
{
    if b {
        out.append("true");
    } else {
        out.append("false");
    }
}

/// The flags as a diagnostic line, `locked=… saver=… asleep=…`.
pub fn flags_snapshot(flags: &ActivityFlags) -> (res: String)
    ensures
        res@ == spec_flags_snapshot(*flags),
{
    let mut out = String::new();
    out.append("locked=");
    append_bool(&mut out, flags.screen_locked);
    out.append(" saver=");
    append_bool(&mut out, flags.screensaver_active);
    out.append(" asleep=");
    append_bool(&mut out, flags.screen_asleep);
    assert(out@ =~= spec_flags_snapshot(*flags));
    out
}

} // verus!
