//! One officiating session: the match state, the settings the host keeps,
//! and the decision taken on each frame.
use vstd::prelude::*;
use crate::match_state::{first_asked, standard_durations, Action, Durations, MatchState};

verus! {

/// How often the display is redrawn while a clock runs, in milliseconds.
pub const DEFAULT_REDRAW_INTERVAL_MS: u64 = 1000;

/// A session of the umpire's display.
pub struct TTUmpire {
    /// The phase of the match. Never kept across restarts.
    pub state: MatchState,
    /// A free text that the host keeps across restarts.
    pub label: String,
    /// How often the display is redrawn while a clock runs, in milliseconds.
    pub redraw_interval_ms: u64,
    /// The countdown durations that transitions start.
    pub durations: Durations,
}

pub open spec fn default_label() -> Seq<char> {
    "Hello World!"@
}

impl TTUmpire {
    pub open spec fn wf(self) -> bool {
        self.state.wf()
    }

    /// A session awaiting players, with the standard durations and redraw
    /// interval, and the label kept from an earlier session if there is one.
    pub fn new(restored_label: Option<String>) -> (r: TTUmpire)
        ensures
            r.wf(),
            r.state == MatchState::AwaitingPlayers,
            r.redraw_interval_ms == DEFAULT_REDRAW_INTERVAL_MS,
            r.durations == standard_durations(),
            r.label@ == match restored_label {
                Some(l) => l@,
                None => default_label(),
            },
    {
        let label = match restored_label {
            Some(l) => l,
            None => String::from_str("Hello World!"),
        };
        TTUmpire {
            state: MatchState::new(),
            label,
            redraw_interval_ms: DEFAULT_REDRAW_INTERVAL_MS,
            durations: Durations::standard(),
        }
    }

    /// One frame's decision: of the actions asked for at clock reading
    /// `now`, the phase honours the first one it offers and performs it;
    /// with none, the state stays.
    pub fn update(&mut self, asked: &Vec<Action>, now: u64)
        requires
            old(self).wf(),
            old(self).state.consistent_at(now as int),
        ensures
            final(self).wf(),
            final(self).state.consistent_at(now as int),
            final(self).state == match first_asked(old(self).state.offered(), asked@) {
                Some(a) => old(self).state.next(a, now, old(self).durations),
                None => old(self).state,
            },
            final(self).label == old(self).label,
            final(self).redraw_interval_ms == old(self).redraw_interval_ms,
            final(self).durations == old(self).durations,
    {
        match self.state.choose_action(asked) {
            Some(a) => {
                self.state = self.state.transition(a, now, &self.durations);
            },
            None => {},
        }
    }

    /// After how many milliseconds the display must be drawn again; none
    /// while no clock runs.
    pub fn repaint_after(&self) -> (r: Option<u64>)
        ensures
            r == if self.state is AwaitingPlayers {
                None::<u64>
            } else {
                Some(self.redraw_interval_ms)
            },
    {
        if self.state.needs_periodic_redraw() {
            Some(self.redraw_interval_ms)
        } else {
            None
        }
    }
}

impl Default for TTUmpire {
    fn default() -> (r: TTUmpire)
        ensures
            r.wf(),
            r.state == MatchState::AwaitingPlayers,
            r.redraw_interval_ms == DEFAULT_REDRAW_INTERVAL_MS,
            r.durations == standard_durations(),
            r.label@ == default_label(),
    {
        TTUmpire::new(None)
    }
}

} // verus!
