//! A timer that counts up (stopwatch) or down from a fixed duration
//! (countdown, which carries on into overtime), with pause and resume.
//!
//! The timer holds no clock: every operation takes the current clock reading
//! `now`, in milliseconds. The host's clock is monotonic, so an operation is
//! only asked for at a reading for which the timer is `consistent_at`.
use vstd::prelude::*;
use crate::clock_text::{clock_text, format_clock};

verus! {

#[derive(Debug, Clone, Copy, PartialEq, Eq, Structural)]
pub struct Timer {
    /// Milliseconds run in earlier, finished runs.
    pub accumulated: u64,
    /// The clock reading at which the current run started; `None` while paused.
    pub running_since: Option<u64>,
    /// The countdown's duration in milliseconds; `None` for a stopwatch.
    pub target_duration: Option<u64>,
}

/// Whole seconds shown for `ms` milliseconds: rounded to the nearest second,
/// halves upwards.
pub open spec fn rounded_seconds(ms: nat) -> nat {
    (ms + 500) / 1000
}

/// Magnitude of an integer.
pub open spec fn magnitude(x: int) -> nat {
    if x < 0 {
        (-x) as nat
    } else {
        x as nat
    }
}

impl Timer {
    pub open spec fn is_running(self) -> bool {
        self.running_since is Some
    }

    pub open spec fn is_countdown(self) -> bool {
        self.target_duration is Some
    }

    /// The timer agrees with a clock that reads `now`: its current run did
    /// not start after `now`, and it has not run for longer than the clock
    /// has counted.
    pub open spec fn consistent_at(self, now: int) -> bool {
        match self.running_since {
            Some(since) => since <= now && self.accumulated <= since,
            None => self.accumulated <= now,
        }
    }

    /// Milliseconds run in all, at clock reading `now`.
    pub open spec fn elapsed_at(self, now: int) -> int {
        match self.running_since {
            Some(since) => self.accumulated + (now - since),
            None => self.accumulated as int,
        }
    }

    /// What the timer counts at `now`: the elapsed time of a stopwatch, the
    /// time left of a countdown (negative in overtime).
    pub open spec fn remaining_or_elapsed_at(self, now: int) -> int {
        match self.target_duration {
            Some(target) => target - self.elapsed_at(now),
            None => self.elapsed_at(now),
        }
    }

    /// A countdown that has run for longer than its duration.
    pub open spec fn expired_at(self, now: int) -> bool {
        match self.target_duration {
            Some(target) => self.elapsed_at(now) > target,
            None => false,
        }
    }

    /// The text shown at `now`: the magnitude of what the timer counts,
    /// rounded to whole seconds, as `m:ss`.
    pub open spec fn display_at(self, now: int) -> Seq<char> {
        clock_text(rounded_seconds(magnitude(self.remaining_or_elapsed_at(now))))
    }

    /// A fresh timer, started at `now` or paused.
    pub open spec fn fresh(target_duration: Option<u64>, running: bool, now: u64) -> Timer {
        Timer {
            accumulated: 0,
            running_since: if running {
                Some(now)
            } else {
                None
            },
            target_duration,
        }
    }

    /// The timer after a toggle at `now`: a running timer stops and keeps
    /// what it ran; a paused one starts a run at `now`.
    pub open spec fn toggled_at(self, now: u64) -> Timer {
        match self.running_since {
            Some(since) => Timer {
                accumulated: (self.accumulated + (now - since)) as u64,
                running_since: None,
                ..self
            },
            None => Timer { running_since: Some(now), ..self },
        }
    }

    pub open spec fn paused_at(self, now: u64) -> Timer {
        if self.is_running() {
            self.toggled_at(now)
        } else {
            self
        }
    }

    pub open spec fn resumed_at(self, now: u64) -> Timer {
        if self.is_running() {
            self
        } else {
            self.toggled_at(now)
        }
    }

    /// A stopwatch that counts up from zero, running from `now` or paused.
    pub fn new_stopwatch(running: bool, now: u64) -> (t: Timer)
        ensures
            t == Timer::fresh(None, running, now),
            t.consistent_at(now as int),
    {
        Timer { accumulated: 0, running_since: if running { Some(now) } else { None }, target_duration: None }
    }

    /// A countdown from `duration` milliseconds, running from `now` or paused.
    pub fn new_countdown(duration: u64, running: bool, now: u64) -> (t: Timer)
        ensures
            t == Timer::fresh(Some(duration), running, now),
            t.consistent_at(now as int),
    {
        Timer {
            accumulated: 0,
            running_since: if running { Some(now) } else { None },
            target_duration: Some(duration),
        }
    }

    /// Stops a running timer, adding the run to what it has accumulated, or
    /// starts a run of a paused one at `now`.
    pub fn toggle(&mut self, now: u64)
        requires
            old(self).consistent_at(now as int),
        ensures
            *final(self) == old(self).toggled_at(now),
            final(self).consistent_at(now as int),
            final(self).is_running() != old(self).is_running(),
            final(self).elapsed_at(now as int) == old(self).elapsed_at(now as int),
    {
        match self.running_since {
            Some(since) => {
                self.accumulated = self.accumulated + (now - since);
                self.running_since = None;
            },
            None => {
                self.running_since = Some(now);
            },
        }
    }

    /// Toggles a running timer; leaves a paused one as it is.
    pub fn pause(&mut self, now: u64)
        requires
            old(self).consistent_at(now as int),
        ensures
            *final(self) == old(self).paused_at(now),
            !final(self).is_running(),
            final(self).consistent_at(now as int),
            final(self).elapsed_at(now as int) == old(self).elapsed_at(now as int),
    {
        if self.running_since.is_some() {
            self.toggle(now);
        }
    }

    /// Toggles a paused timer; leaves a running one as it is.
    pub fn resume(&mut self, now: u64)
        requires
            old(self).consistent_at(now as int),
        ensures
            *final(self) == old(self).resumed_at(now),
            final(self).is_running(),
            final(self).consistent_at(now as int),
            final(self).elapsed_at(now as int) == old(self).elapsed_at(now as int),
    {
        if self.running_since.is_none() {
            self.toggle(now);
        }
    }

    pub fn is_running_now(&self) -> (r: bool)
        ensures
            r == self.is_running(),
    {
        self.running_since.is_some()
    }

    /// Whether the timer agrees with a clock that reads `now`.
    pub fn is_consistent_at(&self, now: u64) -> (r: bool)
        ensures
            r == self.consistent_at(now as int),
    {
        match self.running_since {
            Some(since) => since <= now && self.accumulated <= since,
            None => self.accumulated <= now,
        }
    }

    /// Milliseconds run in all, at clock reading `now`.
    pub fn elapsed(&self, now: u64) -> (r: u64)
        requires
            self.consistent_at(now as int),
        ensures
            r == self.elapsed_at(now as int),
            r <= now,
    {
        match self.running_since {
            Some(since) => self.accumulated + (now - since),
            None => self.accumulated,
        }
    }

    /// The elapsed milliseconds of a stopwatch; the milliseconds left of a
    /// countdown, negative once it has run out.
    pub fn remaining_or_elapsed(&self, now: u64) -> (r: i128)
        requires
            self.consistent_at(now as int),
        ensures
            r == self.remaining_or_elapsed_at(now as int),
    {
        let e = self.elapsed(now);
        match self.target_duration {
            Some(target) => target as i128 - e as i128,
            None => e as i128,
        }
    }

    /// Whether a countdown has run for longer than its duration; never for a
    /// stopwatch.
    pub fn expired(&self, now: u64) -> (r: bool)
        requires
            self.consistent_at(now as int),
        ensures
            r == self.expired_at(now as int),
    {
        match self.target_duration {
            Some(target) => self.elapsed(now) > target,
            None => false,
        }
    }

    /// The time to show at `now` as `m:ss`. A countdown in overtime shows
    /// how far it has overrun, counting up again from `0:00`.
    pub fn display(&self, now: u64) -> (r: String)
        requires
            self.consistent_at(now as int),
        ensures
            r@ == self.display_at(now as int),
    {
        let e = self.elapsed(now);
        let ms: u64 = match self.target_duration {
            Some(target) => if target >= e { target - e } else { e - target },
            None => e,
        };
        let secs: u64 = ms / 1000 + if ms % 1000 >= 500 { 1 } else { 0 };
        assert(secs as nat == rounded_seconds(ms as nat));
        format_clock(secs)
    }
}

/// A running timer advances exactly as the clock does: between two readings
/// `now1 <= now2`, with no pause or resume in between, its elapsed time
/// grows by `now2 - now1`.
pub proof fn lemma_running_elapsed_follows_clock(t: Timer, now1: u64, now2: u64)
    requires
        t.is_running(),
        t.consistent_at(now1 as int),
        now1 <= now2,
    ensures
        t.consistent_at(now2 as int),
        t.elapsed_at(now2 as int) - t.elapsed_at(now1 as int) == now2 - now1,
{
}

/// Pausing a paused timer changes nothing, and neither does resuming a
/// running one: a second pause, or a second resume, at any later reading
/// leaves the timer as the first one left it.
pub proof fn lemma_pause_resume_idempotent(t: Timer, now1: u64, now2: u64)
    requires
        t.consistent_at(now1 as int),
        now1 <= now2,
    ensures
        t.paused_at(now1).paused_at(now2) == t.paused_at(now1),
        t.resumed_at(now1).resumed_at(now2) == t.resumed_at(now1),
{
}

/// Two toggles at the same reading give back the very same timer when the
/// run they open or close has length zero: for a paused timer, and for one
/// whose run started at that reading.
pub proof fn lemma_double_toggle_identity(t: Timer, now: u64)
    requires
        t.consistent_at(now as int),
        t.running_since is None || t.running_since == Some(now),
    ensures
        t.toggled_at(now).toggled_at(now) == t,
{
}

} // verus!
