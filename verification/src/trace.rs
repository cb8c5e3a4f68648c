//! Whole runs of a sink: what it has asked for after any sequence of inputs.

use vstd::prelude::*;

use crate::model::{transition, PhaseView, StageView};
use crate::protocol::{ActionView, InputView};

verus! {

/// One action of a run, with the event and the connection it belongs to.
///
/// Events and connections are numbered from zero in the order in which they
/// were taken and opened. An action belongs to the latest of each; `-1`
/// stands for none so far.
pub struct Entry {
    pub event: int,
    pub connection: int,
    pub action: ActionView,
}

/// A run so far.
pub struct Run {
    /// The state the sink is in.
    pub phase: PhaseView,
    /// How many events have been taken from the upstream sequence.
    pub taken: nat,
    /// How many connections have been opened.
    pub opened: nat,
    /// Every action asked for, in order.
    pub log: Seq<Entry>,
}

/// Whether an event has been taken whose status is still to be reported.
pub open spec fn in_flight(phase: PhaseView) -> bool {
    phase matches PhaseView::Connected(stage) && stage != StageView::Waiting
}

/// Whether a step opens a connection. No step opens more than one.
pub open spec fn opens(actions: Seq<ActionView>) -> bool {
    actions.len() > 0 && actions[0] == ActionView::Open
}

/// The actions of one step, each marked with the same event and connection.
pub open spec fn tagged(actions: Seq<ActionView>, event: int, connection: int) -> Seq<Entry> {
    Seq::new(actions.len(), |i: int| Entry { event, connection, action: actions[i] })
}

/// A run before anything has happened.
pub open spec fn start() -> Run {
    Run { phase: PhaseView::IdleCheck, taken: 0, opened: 0, log: Seq::empty() }
}

/// A run after one more input. An input the sink is not waiting for leaves
/// the run as it was.
pub open spec fn advance(run: Run, input: InputView) -> Run {
    match transition(run.phase, input) {
        None => run,
        Some(step) => {
            let taken = if input == InputView::EventTaken {
                run.taken + 1
            } else {
                run.taken
            };
            let opened = if opens(step.actions) {
                run.opened + 1
            } else {
                run.opened
            };
            Run {
                phase: step.next,
                taken,
                opened,
                log: run.log + tagged(step.actions, taken - 1, opened - 1),
            }
        },
    }
}

/// The run of a fresh sink that is told `script`, one input after another.
pub open spec fn run(script: Seq<InputView>) -> Run
    decreases script.len(),
{
    if script.len() == 0 {
        start()
    } else {
        advance(run(script.drop_last()), script.last())
    }
}

/// How many entries of `log` are `wanted`.
pub open spec fn occurrences(log: Seq<Entry>, wanted: spec_fn(Entry) -> bool) -> nat
    decreases log.len(),
{
    if log.len() == 0 {
        0
    } else {
        let earlier = occurrences(log.drop_last(), wanted);
        if wanted(log.last()) {
            earlier + 1
        } else {
            earlier
        }
    }
}

/// How many status reports in `log` belong to the event numbered `event`.
pub open spec fn reports_for(log: Seq<Entry>, event: int) -> nat {
    occurrences(log, |entry: Entry| entry.action is Report && entry.event == event)
}

/// How many times `log` opens the connection numbered `connection`.
pub open spec fn opens_for(log: Seq<Entry>, connection: int) -> nat {
    occurrences(
        log,
        |entry: Entry| entry.action == ActionView::Open && entry.connection == connection,
    )
}

/// How many times `log` drops the connection numbered `connection`.
pub open spec fn releases_for(log: Seq<Entry>, connection: int) -> nat {
    occurrences(
        log,
        |entry: Entry| entry.action == ActionView::Release && entry.connection == connection,
    )
}

/// How many times `log` asks the connection numbered `connection` to close
/// gracefully.
pub open spec fn disconnects_for(log: Seq<Entry>, connection: int) -> nat {
    occurrences(
        log,
        |entry: Entry| entry.action == ActionView::Disconnect && entry.connection == connection,
    )
}

} // verus!
