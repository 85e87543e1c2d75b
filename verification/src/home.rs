//! The shared application model and its dispatch state machine.

use vstd::prelude::*;

use crate::action::{spec_follow_up, Action};
use crate::runtime::RunError;

verus! {

/// The mutually exclusive UI modes of the model.
#[derive(Debug, Clone, Copy, PartialEq, Eq, Structural)]
pub enum Mode {
    Normal,
    Insert,
    Processing,
}

/// The single mutable application state of one run.
///
/// One instance exists per run; every concurrent party references it
/// through a lock held by the embedding program, never a copy. Dispatch
/// is the only operation that mutates it.
#[derive(Debug, Clone, Copy, PartialEq, Eq, Structural)]
pub struct Home {
    /// The domain counter mutated by the counter commands.
    pub counter: usize,
    /// How many `Tick` actions have been dispatched (saturating).
    pub ticks: u64,
    /// Monotonic: once true it is never cleared, and the run shuts down
    /// after the drain cycle that set it.
    pub should_quit: bool,
    /// Whether the logger pane is shown.
    pub show_logger: bool,
    /// The current UI mode.
    pub mode: Mode,
    /// The most recent non-processing mode, restored by `ExitProcessing`.
    pub prior_mode: Mode,
}

/// `a + b`, clamped to `usize::MAX`.
pub open spec fn sat_add_usize(a: usize, b: usize) -> usize {
    if a + b <= usize::MAX {
        (a + b) as usize
    } else {
        usize::MAX
    }
}

/// `a - b`, clamped to `0`.
pub open spec fn sat_sub_usize(a: usize, b: usize) -> usize {
    if a >= b {
        (a - b) as usize
    } else {
        0
    }
}

/// `a + 1`, clamped to `u64::MAX`.
pub open spec fn sat_inc_u64(a: u64) -> u64 {
    if a < u64::MAX {
        (a + 1) as u64
    } else {
        u64::MAX
    }
}

/// The model that dispatching `a` in state `m` leaves behind.
///
/// The deferred action that the dispatch schedules, if any, is given by
/// [`spec_follow_up`] and depends on the action alone.
pub open spec fn spec_dispatch(m: Home, a: Action) -> Home {
    match a {
        Action::Quit => Home { should_quit: true, ..m },
        Action::Tick => Home { ticks: sat_inc_u64(m.ticks), ..m },
        Action::Resize(_w, _h) => m,
        Action::ToggleShowLogger => Home { show_logger: !m.show_logger, ..m },
        Action::ScheduleIncrementCounter => m,
        Action::ScheduleDecrementCounter => m,
        Action::AddToCounter(n) => Home { counter: sat_add_usize(m.counter, n), ..m },
        Action::SubtractFromCounter(n) => Home { counter: sat_sub_usize(m.counter, n), ..m },
        Action::EnterNormal => Home { mode: Mode::Normal, ..m },
        Action::EnterInsert => Home { mode: Mode::Insert, ..m },
        Action::EnterProcessing => Home {
            prior_mode: if m.mode != Mode::Processing {
                m.mode
            } else {
                m.prior_mode
            },
            mode: Mode::Processing,
            ..m
        },
        Action::ExitProcessing => Home { mode: m.prior_mode, ..m },
        Action::Update => m,
        Action::Noop => m,
    }
}

/// The state a freshly constructed model holds.
pub open spec fn spec_initial_home() -> Home {
    Home {
        counter: 0,
        ticks: 0,
        should_quit: false,
        show_logger: false,
        mode: Mode::Normal,
        prior_mode: Mode::Normal,
    }
}

impl Home {
    /// Builds the model in its initial state.
    pub fn new() -> (r: Home)
        ensures
            r == spec_initial_home(),
    {
        Home {
            counter: 0,
            ticks: 0,
            should_quit: false,
            show_logger: false,
            mode: Mode::Normal,
            prior_mode: Mode::Normal,
        }
    }

    /// Prepares the model before any task begins consuming events.
    ///
    /// Construction cannot fail here, so initialization always succeeds
    /// and leaves the state unchanged; a failure would abort the run.
    pub fn init(&mut self) -> (r: Result<(), RunError>)
        ensures
            *final(self) == *old(self),
            r is Ok,
    {
        Ok(())
    }

    /// Applies one action to the model and returns the deferred action it
    /// schedules, if any.
    ///
    /// The whole mutation happens within this single call: a party that
    /// holds the model's lock around the call never observes a partially
    /// applied state.
    pub fn dispatch(&mut self, action: Action) -> (r: Option<Action>)
        ensures
            *final(self) == spec_dispatch(*old(self), action),
            r == spec_follow_up(action),
    {
        match action {
            Action::Quit => {
                self.should_quit = true;
                None
            },
            Action::Tick => {
                self.ticks = if self.ticks < u64::MAX {
                    self.ticks + 1
                } else {
                    u64::MAX
                };
                None
            },
            Action::Resize(_w, _h) => None,
            Action::ToggleShowLogger => {
                self.show_logger = !self.show_logger;
                None
            },
            Action::ScheduleIncrementCounter => Some(Action::AddToCounter(1)),
            Action::ScheduleDecrementCounter => Some(Action::SubtractFromCounter(1)),
            Action::AddToCounter(n) => {
                self.counter = if self.counter <= usize::MAX - n {
                    self.counter + n
                } else {
                    usize::MAX
                };
                None
            },
            Action::SubtractFromCounter(n) => {
                self.counter = if self.counter >= n {
                    self.counter - n
                } else {
                    0
                };
                None
            },
            Action::EnterNormal => {
                self.mode = Mode::Normal;
                None
            },
            Action::EnterInsert => {
                self.mode = Mode::Insert;
                None
            },
            Action::EnterProcessing => {
                if self.mode != Mode::Processing {
                    self.prior_mode = self.mode;
                }
                self.mode = Mode::Processing;
                None
            },
            Action::ExitProcessing => {
                self.mode = self.prior_mode;
                None
            },
            Action::Update => None,
            Action::Noop => None,
        }
    }
}

} // verus!
