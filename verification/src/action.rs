//! The closed set of event/command values that drive state transitions.

use vstd::prelude::*;

verus! {

/// An event or command value delivered to the model's dispatch.
///
/// Actions are immutable, cheaply copyable and compared by equality.
#[derive(Debug, Clone, Copy, PartialEq, Eq, Structural)]
pub enum Action {
    Quit,
    Tick,
    Resize(u16, u16),
    ToggleShowLogger,
    ScheduleIncrementCounter,
    ScheduleDecrementCounter,
    AddToCounter(usize),
    SubtractFromCounter(usize),
    EnterNormal,
    EnterInsert,
    EnterProcessing,
    ExitProcessing,
    Update,
    Noop,
}

/// The deferred action that dispatching `a` schedules, if any.
///
/// Only the two `Schedule…Counter` commands defer work; the action they
/// schedule never defers further work itself.
pub open spec fn spec_follow_up(a: Action) -> Option<Action> {
    match a {
        Action::ScheduleIncrementCounter => Some(Action::AddToCounter(1)),
        Action::ScheduleDecrementCounter => Some(Action::SubtractFromCounter(1)),
        _ => None,
    }
}

/// True when dispatching `a` schedules a deferred action.
pub open spec fn has_follow_up(a: Action) -> bool {
    spec_follow_up(a) is Some
}

/// The deferred action of `a` as a queue segment: one element when
/// dispatching `a` schedules work, empty otherwise.
pub open spec fn follow_up_seq(a: Action) -> Seq<Action> {
    match spec_follow_up(a) {
        Some(f) => seq![f],
        None => Seq::empty(),
    }
}

/// How much queue work one action stands for: itself, plus the one
/// deferred action it may schedule.
pub open spec fn action_weight(a: Action) -> nat {
    if has_follow_up(a) {
        2
    } else {
        1
    }
}

/// True when `a` belongs in the diagnostic trace stream: every action but
/// `Tick` is traced.
pub open spec fn spec_traced(a: Action) -> bool {
    a != Action::Tick
}

/// Decides whether an action is emitted to the diagnostic trace stream.
pub fn is_traced(a: &Action) -> (r: bool)
    ensures
        r == spec_traced(*a),
{
    *a != Action::Tick
}

} // verus!
