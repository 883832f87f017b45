//! The phases of a match and the transitions between them.
use vstd::prelude::*;
use crate::timer::Timer;

verus! {

/// Warm-up before the match, in milliseconds.
pub const WARM_UP_MS: u64 = 120_000;

/// A tactical time-out, in milliseconds.
pub const TACTICAL_TIME_OUT_MS: u64 = 60_000;

/// A medical time-out, in milliseconds.
pub const MEDICAL_TIME_OUT_MS: u64 = 600_000;

/// The break between two sets, in milliseconds.
pub const BETWEEN_SETS_MS: u64 = 60_000;

/// The countdown durations that the transitions start, in milliseconds.
#[derive(Debug, Clone, Copy, PartialEq, Eq, Structural)]
pub struct Durations {
    pub warm_up: u64,
    pub tactical_time_out: u64,
    pub medical_time_out: u64,
    pub between_sets: u64,
}

/// The durations of the rules: two minutes of warm-up, one minute for a
/// tactical time-out or between sets, ten for a medical time-out.
pub open spec fn standard_durations() -> Durations {
    Durations {
        warm_up: WARM_UP_MS,
        tactical_time_out: TACTICAL_TIME_OUT_MS,
        medical_time_out: MEDICAL_TIME_OUT_MS,
        between_sets: BETWEEN_SETS_MS,
    }
}

impl Durations {
    pub fn standard() -> (d: Durations)
        ensures
            d == standard_durations(),
    {
        Durations {
            warm_up: WARM_UP_MS,
            tactical_time_out: TACTICAL_TIME_OUT_MS,
            medical_time_out: MEDICAL_TIME_OUT_MS,
            between_sets: BETWEEN_SETS_MS,
        }
    }
}

#[derive(Debug, Clone, Copy, PartialEq, Eq, Structural)]
pub enum TimeOutKind {
    Tactical,
    Medical,
}

/// What an official can ask for.
#[derive(Debug, Clone, Copy, PartialEq, Eq, Structural)]
pub enum Action {
    StartWarmUp,
    StartMatch,
    Pause,
    Play,
    TimeOut,
    MedicalTimeOut,
    SetFinished,
    MatchFinished,
}

/// The phase of the match, with the timers it needs.
#[derive(Debug, Clone, Copy, PartialEq, Eq, Structural)]
pub enum MatchState {
    /// No timer runs. The initial state.
    AwaitingPlayers,
    /// A running countdown.
    WarmUp(Timer),
    /// A running stopwatch: the time played in the current set.
    Playing(Timer),
    /// The same stopwatch, paused.
    Paused(Timer),
    /// `timer` counts the time-out down; `set_duration` is the interrupted
    /// set's stopwatch, held paused.
    TimeOut { timer: Timer, set_duration: Timer, kind: TimeOutKind },
    /// A running countdown.
    BetweenSets(Timer),
}

pub open spec fn running_countdown(t: Timer) -> bool {
    t.is_running() && t.is_countdown()
}

pub open spec fn stopwatch(t: Timer) -> bool {
    !t.is_countdown()
}

/// The first action of `offered` that occurs in `asked`.
pub open spec fn first_asked(offered: Seq<Action>, asked: Seq<Action>) -> Option<Action>
    decreases offered.len(),
{
    if offered.len() == 0 {
        None
    } else if asked.contains(offered[0]) {
        Some(offered[0])
    } else {
        first_asked(offered.skip(1), asked)
    }
}

impl MatchState {
    /// Each phase holds timers of its own mode and run state: running
    /// countdowns for warm-up, time-outs and breaks; the set's stopwatch,
    /// running while playing and paused otherwise.
    pub open spec fn wf(self) -> bool {
        match self {
            MatchState::AwaitingPlayers => true,
            MatchState::WarmUp(t) => running_countdown(t),
            MatchState::Playing(t) => stopwatch(t) && t.is_running(),
            MatchState::Paused(t) => stopwatch(t) && !t.is_running(),
            MatchState::TimeOut { timer, set_duration, .. } => running_countdown(timer) && stopwatch(
                set_duration,
            ) && !set_duration.is_running(),
            MatchState::BetweenSets(t) => running_countdown(t),
        }
    }

    /// Every timer of the state agrees with a clock that reads `now`.
    pub open spec fn consistent_at(self, now: int) -> bool {
        match self {
            MatchState::AwaitingPlayers => true,
            MatchState::WarmUp(t) => t.consistent_at(now),
            MatchState::Playing(t) => t.consistent_at(now),
            MatchState::Paused(t) => t.consistent_at(now),
            MatchState::TimeOut { timer, set_duration, .. } => timer.consistent_at(now)
                && set_duration.consistent_at(now),
            MatchState::BetweenSets(t) => t.consistent_at(now),
        }
    }

    /// The state after `action` at clock reading `now`. An action that the
    /// phase does not offer leaves the state as it is.
    pub open spec fn next(self, action: Action, now: u64, d: Durations) -> MatchState {
        let countdown = |duration: u64| Timer::fresh(Some(duration), true, now);
        match (self, action) {
            (MatchState::AwaitingPlayers, Action::StartWarmUp) => MatchState::WarmUp(
                countdown(d.warm_up),
            ),
            (MatchState::WarmUp(_), Action::StartMatch) => MatchState::Playing(
                Timer::fresh(None, true, now),
            ),
            (MatchState::Playing(t), Action::Pause) => MatchState::Paused(t.paused_at(now)),
            (MatchState::Playing(t), Action::TimeOut) => MatchState::TimeOut {
                timer: countdown(d.tactical_time_out),
                set_duration: t.paused_at(now),
                kind: TimeOutKind::Tactical,
            },
            (MatchState::Playing(t), Action::MedicalTimeOut) => MatchState::TimeOut {
                timer: countdown(d.medical_time_out),
                set_duration: t.paused_at(now),
                kind: TimeOutKind::Medical,
            },
            (MatchState::Playing(_), Action::SetFinished) => MatchState::BetweenSets(
                countdown(d.between_sets),
            ),
            (MatchState::Paused(t), Action::Play) => MatchState::Playing(t.resumed_at(now)),
            (MatchState::Paused(t), Action::TimeOut) => MatchState::TimeOut {
                timer: countdown(d.tactical_time_out),
                set_duration: t,
                kind: TimeOutKind::Tactical,
            },
            (MatchState::Paused(t), Action::MedicalTimeOut) => MatchState::TimeOut {
                timer: countdown(d.medical_time_out),
                set_duration: t,
                kind: TimeOutKind::Medical,
            },
            (MatchState::TimeOut { set_duration, .. }, Action::Play) => MatchState::Playing(
                set_duration.resumed_at(now),
            ),
            (MatchState::BetweenSets(_), Action::Play) => MatchState::Playing(
                Timer::fresh(None, true, now),
            ),
            (MatchState::BetweenSets(_), Action::MatchFinished) => MatchState::AwaitingPlayers,
            _ => self,
        }
    }

    /// The state at the start of a match.
    pub fn new() -> (s: MatchState)
        ensures
            s == MatchState::AwaitingPlayers,
            s.wf(),
    {
        MatchState::AwaitingPlayers
    }

    /// Performs `action` at clock reading `now`, creating, pausing, resuming
    /// or discarding timers as the phase requires.
    pub fn transition(self, action: Action, now: u64, d: &Durations) -> (r: MatchState)
        requires
            self.wf(),
            self.consistent_at(now as int),
        ensures
            r == self.next(action, now, *d),
            r.wf(),
            r.consistent_at(now as int),
    {
        match (self, action) {
            (MatchState::AwaitingPlayers, Action::StartWarmUp) => MatchState::WarmUp(
                Timer::new_countdown(d.warm_up, true, now),
            ),
            (MatchState::WarmUp(_), Action::StartMatch) => MatchState::Playing(
                Timer::new_stopwatch(true, now),
            ),
            (MatchState::Playing(mut t), Action::Pause) => {
                t.pause(now);
                MatchState::Paused(t)
            },
            (MatchState::Playing(mut t), Action::TimeOut) => {
                t.pause(now);
                MatchState::TimeOut {
                    timer: Timer::new_countdown(d.tactical_time_out, true, now),
                    set_duration: t,
                    kind: TimeOutKind::Tactical,
                }
            },
            (MatchState::Playing(mut t), Action::MedicalTimeOut) => {
                t.pause(now);
                MatchState::TimeOut {
                    timer: Timer::new_countdown(d.medical_time_out, true, now),
                    set_duration: t,
                    kind: TimeOutKind::Medical,
                }
            },
            (MatchState::Playing(_), Action::SetFinished) => MatchState::BetweenSets(
                Timer::new_countdown(d.between_sets, true, now),
            ),
            (MatchState::Paused(mut t), Action::Play) => {
                t.resume(now);
                MatchState::Playing(t)
            },
            (MatchState::Paused(t), Action::TimeOut) => MatchState::TimeOut {
                timer: Timer::new_countdown(d.tactical_time_out, true, now),
                set_duration: t,
                kind: TimeOutKind::Tactical,
            },
            (MatchState::Paused(t), Action::MedicalTimeOut) => MatchState::TimeOut {
                timer: Timer::new_countdown(d.medical_time_out, true, now),
                set_duration: t,
                kind: TimeOutKind::Medical,
            },
            (MatchState::TimeOut { mut set_duration, .. }, Action::Play) => {
                set_duration.resume(now);
                MatchState::Playing(set_duration)
            },
            (MatchState::BetweenSets(_), Action::Play) => MatchState::Playing(
                Timer::new_stopwatch(true, now),
            ),
            (MatchState::BetweenSets(_), Action::MatchFinished) => MatchState::AwaitingPlayers,
            _ => self,
        }
    }
    /// The phase's title.
    pub open spec fn title_of(self) -> Seq<char> {
        match self {
            MatchState::AwaitingPlayers => "Awaiting players"@,
            MatchState::WarmUp(_) => "Warm-up"@,
            MatchState::Playing(_) => "Playing"@,
            MatchState::Paused(_) => "Paused"@,
            MatchState::TimeOut { kind: TimeOutKind::Medical, .. } => "Medical Time-out"@,
            MatchState::TimeOut { kind: TimeOutKind::Tactical, .. } => "Time-out"@,
            MatchState::BetweenSets(_) => "Pause between sets"@,
        }
    }

    /// The timer whose clock the phase shows: the time-out's countdown
    /// during a time-out, none while awaiting players.
    pub open spec fn shown(self) -> Option<Timer> {
        match self {
            MatchState::AwaitingPlayers => None,
            MatchState::WarmUp(t) => Some(t),
            MatchState::Playing(t) => Some(t),
            MatchState::Paused(t) => Some(t),
            MatchState::TimeOut { timer, .. } => Some(timer),
            MatchState::BetweenSets(t) => Some(t),
        }
    }

    /// The actions the phase offers, the one that wins first when several
    /// are asked for at once.
    pub open spec fn offered(self) -> Seq<Action> {
        match self {
            MatchState::AwaitingPlayers => seq![Action::StartWarmUp],
            MatchState::WarmUp(_) => seq![Action::StartMatch],
            MatchState::Playing(_) => seq![
                Action::Pause,
                Action::TimeOut,
                Action::MedicalTimeOut,
                Action::SetFinished,
            ],
            MatchState::Paused(_) => seq![Action::Play, Action::MedicalTimeOut, Action::TimeOut],
            MatchState::TimeOut { .. } => seq![Action::Play],
            MatchState::BetweenSets(_) => seq![Action::Play, Action::MatchFinished],
        }
    }

    pub fn title(&self) -> (r: &'static str)
        ensures
            r@ == self.title_of(),
    {
        match self {
            MatchState::AwaitingPlayers => "Awaiting players",
            MatchState::WarmUp(_) => "Warm-up",
            MatchState::Playing(_) => "Playing",
            MatchState::Paused(_) => "Paused",
            MatchState::TimeOut { kind: TimeOutKind::Medical, .. } => "Medical Time-out",
            MatchState::TimeOut { kind: TimeOutKind::Tactical, .. } => "Time-out",
            MatchState::BetweenSets(_) => "Pause between sets",
        }
    }

    /// The timer whose clock the phase shows.
    pub fn shown_timer(&self) -> (r: Option<Timer>)
        ensures
            r == self.shown(),
    {
        match *self {
            MatchState::AwaitingPlayers => None,
            MatchState::WarmUp(t) => Some(t),
            MatchState::Playing(t) => Some(t),
            MatchState::Paused(t) => Some(t),
            MatchState::TimeOut { timer, .. } => Some(timer),
            MatchState::BetweenSets(t) => Some(t),
        }
    }

    /// The shown clock at `now` as `m:ss`; none while awaiting players.
    pub fn clock(&self, now: u64) -> (r: Option<String>)
        requires
            self.consistent_at(now as int),
        ensures
            r is Some <==> self.shown() is Some,
            r is Some ==> r->0@ == self.shown()->0.display_at(now as int),
    {
        match self.shown_timer() {
            Some(t) => Some(t.display(now)),
            None => None,
        }
    }

    /// Whether the shown clock is a countdown in overtime.
    pub fn overtime(&self, now: u64) -> (r: bool)
        requires
            self.consistent_at(now as int),
        ensures
            r == (self.shown() is Some && self.shown()->0.expired_at(now as int)),
    {
        match self.shown_timer() {
            Some(t) => t.expired(now),
            None => false,
        }
    }

    /// Whether the display must be redrawn periodically so that its clock
    /// advances: in every phase but awaiting players, where no timer runs.
    pub fn needs_periodic_redraw(&self) -> (r: bool)
        ensures
            r == !(self is AwaitingPlayers),
    {
        !matches!(self, MatchState::AwaitingPlayers)
    }

    /// Whether every timer of the state agrees with a clock that reads `now`.
    pub fn is_consistent_at(&self, now: u64) -> (r: bool)
        ensures
            r == self.consistent_at(now as int),
    {
        match self {
            MatchState::AwaitingPlayers => true,
            MatchState::WarmUp(t) => t.is_consistent_at(now),
            MatchState::Playing(t) => t.is_consistent_at(now),
            MatchState::Paused(t) => t.is_consistent_at(now),
            MatchState::TimeOut { timer, set_duration, .. } => timer.is_consistent_at(now)
                && set_duration.is_consistent_at(now),
            MatchState::BetweenSets(t) => t.is_consistent_at(now),
        }
    }

    /// The actions the phase offers, highest priority first.
    pub fn offered_actions(&self) -> (r: Vec<Action>)
        ensures
            r@ == self.offered(),
    {
        let r = match self {
            MatchState::AwaitingPlayers => vec![Action::StartWarmUp],
            MatchState::WarmUp(_) => vec![Action::StartMatch],
            MatchState::Playing(_) => vec![
                Action::Pause,
                Action::TimeOut,
                Action::MedicalTimeOut,
                Action::SetFinished,
            ],
            MatchState::Paused(_) => vec![Action::Play, Action::MedicalTimeOut, Action::TimeOut],
            MatchState::TimeOut { .. } => vec![Action::Play],
            MatchState::BetweenSets(_) => vec![Action::Play, Action::MatchFinished],
        };
        assert(r@ =~= self.offered());
        r
    }

    /// Of the actions asked for at once, the one that the phase honours: the
    /// first offered action that was asked for, if any.
    pub fn choose_action(&self, asked: &Vec<Action>) -> (r: Option<Action>)
        ensures
            r == first_asked(self.offered(), asked@),
    {
        let offered = self.offered_actions();
        let mut i: usize = 0;
        assert(offered@.skip(0) =~= offered@);
        while i < offered.len()
            invariant
                offered@ == self.offered(),
                0 <= i <= offered@.len(),
                first_asked(offered@, asked@) == first_asked(offered@.skip(i as int), asked@),
            decreases offered@.len() - i,
        {
            let a = offered[i];
            let mut j: usize = 0;
            while j < asked.len()
                invariant
                    offered@ == self.offered(),
                    0 <= i < offered@.len(),
                    a == offered@[i as int],
                    first_asked(offered@, asked@) == first_asked(offered@.skip(i as int), asked@),
                    0 <= j <= asked@.len(),
                    forall|k: int| 0 <= k < j ==> asked@[k] != a,
                decreases asked@.len() - j,
            {
                if asked[j] == a {
                    assert(asked@[j as int] == a);
                    assert(asked@.contains(a));
                    return Some(a);
                }
                j = j + 1;
            }
            assert(!asked@.contains(a));
            assert(offered@.skip(i as int).skip(1) =~= offered@.skip(i + 1));
            i = i + 1;
        }
        None
    }
}

/// The transition is total and keeps the state sound: from every
/// well-formed state that agrees with the clock, every action leads to a
/// well-formed state that agrees with the same clock reading (the state
/// itself where the phase does not offer the action).
pub proof fn lemma_transition_total(s: MatchState, action: Action, now: u64, d: Durations)
    requires
        s.wf(),
        s.consistent_at(now as int),
    ensures
        s.next(action, now, d).wf(),
        s.next(action, now, d).consistent_at(now as int),
        !s.offered().contains(action) ==> s.next(action, now, d) == s,
{
    if !s.offered().contains(action) {
        match s {
            MatchState::AwaitingPlayers => assert(s.offered()[0] == Action::StartWarmUp),
            MatchState::WarmUp(_) => assert(s.offered()[0] == Action::StartMatch),
            MatchState::Playing(_) => {
                assert(s.offered()[0] == Action::Pause);
                assert(s.offered()[1] == Action::TimeOut);
                assert(s.offered()[2] == Action::MedicalTimeOut);
                assert(s.offered()[3] == Action::SetFinished);
            },
            MatchState::Paused(_) => {
                assert(s.offered()[0] == Action::Play);
                assert(s.offered()[1] == Action::MedicalTimeOut);
                assert(s.offered()[2] == Action::TimeOut);
            },
            MatchState::TimeOut { .. } => assert(s.offered()[0] == Action::Play),
            MatchState::BetweenSets(_) => {
                assert(s.offered()[0] == Action::Play);
                assert(s.offered()[1] == Action::MatchFinished);
            },
        }
    }
}

/// A state that agrees with the clock at one reading still agrees with it
/// at every later reading: a monotonic clock never invalidates a state.
pub proof fn lemma_consistent_later(s: MatchState, now1: int, now2: int)
    requires
        s.consistent_at(now1),
        now1 <= now2,
    ensures
        s.consistent_at(now2),
{
}

/// A time-out interrupts the set's clock without losing any of it: after
/// `Playing`, a time-out at `now1` and play again at a later `now2`, the
/// set's stopwatch runs again and shows what it had at `now1`.
pub proof fn lemma_time_out_resumes_set(
    t: Timer,
    kind: Action,
    now1: u64,
    now2: u64,
    d: Durations,
)
    requires
        MatchState::Playing(t).wf(),
        t.consistent_at(now1 as int),
        kind == Action::TimeOut || kind == Action::MedicalTimeOut,
        now1 <= now2,
    ensures
        MatchState::Playing(t).next(kind, now1, d) is TimeOut,
        MatchState::Playing(t).next(kind, now1, d).next(Action::Play, now2, d)
            == MatchState::Playing(t.paused_at(now1).resumed_at(now2)),
        t.paused_at(now1).resumed_at(now2).is_running(),
        t.paused_at(now1).resumed_at(now2).elapsed_at(now2 as int) == t.elapsed_at(now1 as int),
{
}

} // verus!
