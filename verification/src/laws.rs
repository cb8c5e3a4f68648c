//! What holds of every run of a sink.

use vstd::prelude::*;

use crate::model::{answers, awaited, transition, PhaseView, StageView};
use crate::protocol::{ActionView, EventStatus, InputView};
use crate::trace::{
    advance, disconnects_for, in_flight, occurrences, opens, opens_for, releases_for, reports_for,
    run, tagged, Entry,
};

verus! {

/// A sink acts on an input exactly when the input tells it what it is
/// waiting for.
pub proof fn law_acts_on_what_it_awaits(phase: PhaseView, input: InputView)
    ensures
        transition(phase, input) is Some <==> answers(awaited(phase), input),
{
}

/// Telling a sink one more input advances its run by that input.
pub proof fn lemma_run_push(script: Seq<InputView>, input: InputView)
    ensures
        run(script.push(input)) == advance(run(script), input),
{
    assert(script.push(input).drop_last() =~= script);
}

proof fn lemma_occurrences_concat(a: Seq<Entry>, b: Seq<Entry>, wanted: spec_fn(Entry) -> bool)
    ensures
        occurrences(a + b, wanted) == occurrences(a, wanted) + occurrences(b, wanted),
    decreases b.len(),
{
    if b.len() == 0 {
        assert(a + b =~= a);
    } else {
        assert((a + b).drop_last() =~= a + b.drop_last());
        lemma_occurrences_concat(a, b.drop_last(), wanted);
    }
}

/// A step reports a status exactly when it takes the event in hand out of
/// the pipeline, and then reports one. Only taking an event puts one in.
proof fn lemma_step_reports(phase: PhaseView, input: InputView, event: int, connection: int, wanted: int)
    requires
        transition(phase, input) is Some,
    ensures
        ({
            let step = transition(phase, input)->0;
            &&& reports_for(tagged(step.actions, event, connection), wanted) == if event == wanted
                && in_flight(phase) && !in_flight(step.next) {
                1nat
            } else {
                0nat
            }
            &&& input == InputView::EventTaken ==> !in_flight(phase) && in_flight(step.next)
            &&& input != InputView::EventTaken && in_flight(step.next) ==> in_flight(phase)
        }),
{
    reveal_with_fuel(occurrences, 6);
}

/// Every event taken from the upstream sequence gets exactly one status
/// report, never more, and none is reported that was not taken.
///
/// Whatever the sink has been told, the reports that belong to an event
/// number exactly one, except for an event still in the pipeline, which has
/// none yet; and no report belongs to anything else.
pub proof fn law_exactly_one_report(script: Seq<InputView>, event: int)
    ensures
        in_flight(run(script).phase) ==> run(script).taken > 0,
        reports_for(run(script).log, event) == if 0 <= event < run(script).taken && !(event
            == run(script).taken - 1 && in_flight(run(script).phase)) {
            1nat
        } else {
            0nat
        },
    decreases script.len(),
{
    if script.len() > 0 {
        let before = run(script.drop_last());
        let input = script.last();
        law_exactly_one_report(script.drop_last(), event);
        match transition(before.phase, input) {
            None => {},
            Some(step) => {
                let after = advance(before, input);
                lemma_step_reports(
                    before.phase,
                    input,
                    after.taken - 1,
                    after.opened - 1,
                    event,
                );
                lemma_occurrences_concat(
                    before.log,
                    tagged(step.actions, after.taken - 1, after.opened - 1),
                    |entry: Entry| entry.action is Report && entry.event == event,
                );
            },
        }
    }
}

/// Once a sink has finished, each event it took has been reported on
/// exactly once.
pub proof fn law_finished_run_reports_all(script: Seq<InputView>)
    requires
        run(script).phase == PhaseView::Finished,
    ensures
        forall|event: int|
            0 <= event < run(script).taken ==> #[trigger] reports_for(run(script).log, event)
                == 1,
{
    assert forall|event: int| 0 <= event < run(script).taken implies #[trigger] reports_for(
        run(script).log,
        event,
    ) == 1 by {
        law_exactly_one_report(script, event);
    }
}

/// Whether an event has been taken and its publish call is still to be
/// asked for, if it ever is.
pub open spec fn before_publish(phase: PhaseView) -> bool {
    phase matches PhaseView::Connected(stage) && (stage is Rendering || stage is Encoding)
}

/// A step asks for a publish call only when the payload of the event in
/// hand has just been encoded.
proof fn lemma_step_publishes(phase: PhaseView, input: InputView, i: int)
    requires
        transition(phase, input) matches Some(step) && 0 <= i < step.actions.len()
            && step.actions[i] is Publish,
    ensures
        before_publish(phase),
        !before_publish(transition(phase, input)->0.next),
        input != InputView::EventTaken,
{
}

/// At any point of a run, every publish call asked for belongs to an event
/// that was taken and is past encoding, and the calls stand in the order of
/// their events.
proof fn lemma_publishes_sorted(script: Seq<InputView>)
    ensures
        forall|i: int|
            0 <= i < run(script).log.len() && (#[trigger] run(script).log[i]).action is Publish
                ==> 0 <= run(script).log[i].event < run(script).taken && !(run(
                script,
            ).log[i].event == run(script).taken - 1 && before_publish(run(script).phase)),
        forall|i: int, j: int|
            0 <= i < j < run(script).log.len() && (#[trigger] run(script).log[i]).action is Publish
                && (#[trigger] run(script).log[j]).action is Publish ==> run(script).log[i].event
                < run(script).log[j].event,
    decreases script.len(),
{
    if script.len() > 0 {
        let before = run(script.drop_last());
        let input = script.last();
        let after = run(script);
        lemma_publishes_sorted(script.drop_last());
        law_exactly_one_report(script.drop_last(), 0);
        match transition(before.phase, input) {
            None => {},
            Some(step) => {
                let old_len = before.log.len() as int;
                assert forall|i: int|
                    0 <= i < after.log.len() && (#[trigger] after.log[i]).action is Publish implies 0
                    <= after.log[i].event < after.taken && !(after.log[i].event == after.taken - 1
                    && before_publish(after.phase)) by {
                    if i < old_len {
                        assert(after.log[i] == before.log[i]);
                        if input == InputView::EventTaken {
                            lemma_step_reports(before.phase, input, 0, 0, 0);
                        }
                    } else {
                        assert(after.log[i].action == step.actions[i - old_len]);
                        lemma_step_publishes(before.phase, input, i - old_len);
                    }
                }
                assert forall|i: int, j: int|
                    0 <= i < j < after.log.len() && (#[trigger] after.log[i]).action is Publish && (
                    #[trigger] after.log[j]).action is Publish implies after.log[i].event
                    < after.log[j].event by {
                    if j < old_len {
                        assert(after.log[i] == before.log[i]);
                        assert(after.log[j] == before.log[j]);
                    } else {
                        assert(after.log[j].action == step.actions[j - old_len]);
                        lemma_step_publishes(before.phase, input, j - old_len);
                        if i < old_len {
                            assert(after.log[i] == before.log[i]);
                        } else {
                            assert(after.log[i].action == step.actions[i - old_len]);
                        }
                    }
                }
            },
        }
    }
}

/// Publish calls are asked for in the order in which their events were
/// taken from the upstream sequence, and no event is published twice.
///
/// This holds across reconnects, and so on each single connection.
pub proof fn law_publish_order(script: Seq<InputView>, first: int, second: int)
    requires
        0 <= first < second < run(script).log.len(),
        run(script).log[first].action is Publish,
        run(script).log[second].action is Publish,
    ensures
        0 <= run(script).log[first].event < run(script).log[second].event < run(script).taken,
{
    lemma_publishes_sorted(script);
}

/// A step opens a connection exactly when it leaves the idle check for a
/// connection, drops one exactly when it leaves a connection, and asks for a
/// graceful close only when it leaves because the upstream sequence closed.
proof fn lemma_step_connection(
    phase: PhaseView,
    input: InputView,
    event: int,
    connection: int,
    wanted: int,
)
    requires
        transition(phase, input) is Some,
    ensures
        ({
            let step = transition(phase, input)->0;
            let entries = tagged(step.actions, event, connection);
            &&& opens(step.actions) <==> !(phase is Connected) && step.next is Connected
            &&& opens_for(entries, wanted) == if connection == wanted && opens(step.actions) {
                1nat
            } else {
                0nat
            }
            &&& releases_for(entries, wanted) == if connection == wanted && phase is Connected
                && !(step.next is Connected) {
                1nat
            } else {
                0nat
            }
            &&& disconnects_for(entries, wanted) == if connection == wanted
                && input == InputView::UpstreamClosed {
                1nat
            } else {
                0nat
            }
            &&& input == InputView::UpstreamClosed ==> phase is Connected && !(step.next
                is Connected)
        }),
{
    reveal_with_fuel(occurrences, 6);
}

/// A sink holds at most one connection at a time, and every connection it
/// opens it drops exactly once.
///
/// Each connection is opened once. It has been dropped once unless it is the
/// one the sink still holds, and it was asked to close gracefully at most
/// once, in the step that dropped it.
pub proof fn law_connection_lifecycle(script: Seq<InputView>, connection: int)
    ensures
        run(script).phase is Connected ==> run(script).opened > 0,
        opens_for(run(script).log, connection) == if 0 <= connection < run(script).opened {
            1nat
        } else {
            0nat
        },
        releases_for(run(script).log, connection) == if 0 <= connection < run(script).opened
            && !(connection == run(script).opened - 1 && run(script).phase is Connected) {
            1nat
        } else {
            0nat
        },
        disconnects_for(run(script).log, connection) <= releases_for(
            run(script).log,
            connection,
        ),
    decreases script.len(),
{
    if script.len() > 0 {
        let before = run(script.drop_last());
        let input = script.last();
        law_connection_lifecycle(script.drop_last(), connection);
        match transition(before.phase, input) {
            None => {},
            Some(step) => {
                let after = advance(before, input);
                let entries = tagged(step.actions, after.taken - 1, after.opened - 1);
                lemma_step_connection(
                    before.phase,
                    input,
                    after.taken - 1,
                    after.opened - 1,
                    connection,
                );
                lemma_occurrences_concat(
                    before.log,
                    entries,
                    |entry: Entry|
                        entry.action == ActionView::Open && entry.connection == connection,
                );
                lemma_occurrences_concat(
                    before.log,
                    entries,
                    |entry: Entry|
                        entry.action == ActionView::Release && entry.connection == connection,
                );
                lemma_occurrences_concat(
                    before.log,
                    entries,
                    |entry: Entry|
                        entry.action == ActionView::Disconnect && entry.connection == connection,
                );
            },
        }
    }
}

/// A sink finishes only by finding the upstream sequence exhausted at an
/// idle check. No failure of the transport or of a publish call ends it.
pub proof fn law_finishes_only_when_exhausted(phase: PhaseView, input: InputView)
    requires
        transition(phase, input) matches Some(step) && step.next == PhaseView::Finished,
    ensures
        phase == PhaseView::IdleCheck,
        input == InputView::Peeked(false),
{
}

/// A finished sink waits for nothing: whatever it is told changes nothing.
pub proof fn law_finished_is_final(input: InputView)
    ensures
        transition(PhaseView::Finished, input) is None,
{
}

/// A sink whose upstream sequence is exhausted from the start finishes at
/// once and never opens a connection, whatever it is told afterwards.
pub proof fn law_empty_input_never_connects(script: Seq<InputView>)
    requires
        script.len() > 0,
        script[0] == InputView::Peeked(false),
    ensures
        run(script).phase == PhaseView::Finished,
        run(script).opened == 0,
        run(script).taken == 0,
        run(script).log == seq![Entry { event: -1, connection: -1, action: ActionView::Finish }],
    decreases script.len(),
{
    if script.len() == 1 {
        assert(run(script.drop_last()) == crate::trace::start());
        assert(run(script).log =~= seq![
            Entry { event: -1, connection: -1, action: ActionView::Finish },
        ]);
    } else {
        law_empty_input_never_connects(script.drop_last());
    }
}

/// Whether `input` reports, in `phase`, a failure that concerns the event
/// in hand alone: its topic could not be rendered, or it could not be
/// encoded.
pub open spec fn event_failure(phase: PhaseView, input: InputView) -> bool {
    ||| phase == PhaseView::Connected(StageView::Rendering) && input matches InputView::Rendered(
        Err(_),
    )
    ||| phase matches PhaseView::Connected(StageView::Encoding { .. })
        && input matches InputView::Encoded { payload: Err(_), .. }
}

/// Whether `input` reports, in `phase`, a failure of the connection itself:
/// polling the transport failed, or the publish call was refused.
pub open spec fn connection_failure(phase: PhaseView, input: InputView) -> bool {
    ||| phase == PhaseView::Connected(StageView::Waiting) && input matches InputView::Polled(
        Err(_),
    )
    ||| phase matches PhaseView::Connected(StageView::Publishing { .. })
        && input matches InputView::Published(Err(_))
}

/// A failure to render or to encode costs the event and nothing else.
///
/// The event in hand is reported `Errored`, and that is the step's only
/// report; the connection is neither dropped nor closed nor replaced; and an
/// event taken next is handled on the same connection.
pub proof fn law_event_failure_spares_connection(script: Seq<InputView>, failure: InputView)
    requires
        event_failure(run(script).phase, failure),
    ensures
        ({
            let before = run(script);
            let after = run(script.push(failure));
            let next = run(script.push(failure).push(InputView::EventTaken));
            &&& after.phase == PhaseView::Connected(StageView::Waiting)
            &&& after.taken == before.taken
            &&& after.opened == before.opened
            &&& after.log.len() > before.log.len()
            &&& after.log.subrange(0, before.log.len() as int) == before.log
            &&& after.log.last() == Entry {
                event: before.taken - 1,
                connection: before.opened - 1,
                action: ActionView::Report(EventStatus::Errored),
            }
            &&& forall|i: int|
                before.log.len() <= i < after.log.len() - 1 ==> (#[trigger] after.log[i]).action
                    is Observe
            &&& forall|event: int|
                event != before.taken - 1 ==> reports_for(after.log, event) == reports_for(
                    before.log,
                    event,
                )
            &&& next.phase == PhaseView::Connected(StageView::Rendering)
            &&& next.taken == before.taken + 1
            &&& next.opened == before.opened
            &&& next.log.len() > after.log.len()
            &&& forall|i: int|
                after.log.len() <= i < next.log.len() ==> (#[trigger] next.log[i]).event
                    == before.taken && next.log[i].connection == before.opened - 1
        }),
{
    let before = run(script);
    let after = run(script.push(failure));
    lemma_run_push(script, failure);
    lemma_run_push(script.push(failure), InputView::EventTaken);
    let step = transition(before.phase, failure)->0;
    assert(after.log.subrange(0, before.log.len() as int) =~= before.log);
    assert forall|event: int| event != before.taken - 1 implies reports_for(after.log, event)
        == reports_for(before.log, event) by {
        lemma_step_reports(before.phase, failure, before.taken - 1, before.opened - 1, event);
        lemma_occurrences_concat(
            before.log,
            tagged(step.actions, before.taken - 1, before.opened - 1),
            |entry: Entry| entry.action is Report && entry.event == event,
        );
    }
}

/// A failure of the transport or of a publish call costs the connection,
/// and the sink carries on with a new one if events remain.
///
/// The connection is dropped without a graceful close, and the sink returns
/// to the idle check; if the publish call failed, the event in hand is
/// reported `Errored`. If the upstream sequence then has an event waiting, a
/// connection is opened that was not held before, and the event taken next
/// is handled on it.
pub proof fn law_connection_failure_reconnects(script: Seq<InputView>, failure: InputView)
    requires
        connection_failure(run(script).phase, failure),
    ensures
        ({
            let before = run(script);
            let after = run(script.push(failure));
            let resumed = run(script.push(failure).push(InputView::Peeked(true)));
            let next = run(
                script.push(failure).push(InputView::Peeked(true)).push(InputView::EventTaken),
            );
            &&& after.phase == PhaseView::IdleCheck
            &&& after.taken == before.taken
            &&& after.opened == before.opened
            &&& after.log.len() > before.log.len()
            &&& after.log.subrange(0, before.log.len() as int) == before.log
            &&& after.log.last() == Entry {
                event: before.taken - 1,
                connection: before.opened - 1,
                action: ActionView::Release,
            }
            &&& forall|i: int|
                before.log.len() <= i < after.log.len() - 1 ==> {
                    ||| (#[trigger] after.log[i]).action is Observe
                    ||| in_flight(before.phase) && after.log[i].action == ActionView::Report(
                        EventStatus::Errored,
                    )
                }
            &&& in_flight(before.phase) ==> reports_for(after.log, before.taken - 1) == 1
            &&& resumed.phase == PhaseView::Connected(StageView::Waiting)
            &&& resumed.taken == before.taken
            &&& resumed.opened == before.opened + 1
            &&& resumed.log.len() > after.log.len()
            &&& resumed.log[after.log.len() as int] == Entry {
                event: before.taken - 1,
                connection: before.opened as int,
                action: ActionView::Open,
            }
            &&& next.phase == PhaseView::Connected(StageView::Rendering)
            &&& next.taken == before.taken + 1
            &&& next.log.len() > resumed.log.len()
            &&& forall|i: int|
                resumed.log.len() <= i < next.log.len() ==> (#[trigger] next.log[i]).event
                    == before.taken && next.log[i].connection == before.opened
        }),
{
    let before = run(script);
    let after = run(script.push(failure));
    lemma_run_push(script, failure);
    lemma_run_push(script.push(failure), InputView::Peeked(true));
    lemma_run_push(script.push(failure).push(InputView::Peeked(true)), InputView::EventTaken);
    assert(after.log.subrange(0, before.log.len() as int) =~= before.log);
    law_exactly_one_report(script, before.taken - 1);
    law_exactly_one_report(script.push(failure), before.taken - 1);
}

/// A `Delivered` report is made only when the publish call for the event in
/// hand has been accepted.
pub proof fn law_delivered_means_accepted(phase: PhaseView, input: InputView, i: int)
    requires
        transition(phase, input) matches Some(step) && 0 <= i < step.actions.len()
            && step.actions[i] == ActionView::Report(EventStatus::Delivered),
    ensures
        phase matches PhaseView::Connected(StageView::Publishing { .. }),
        input matches InputView::Published(Ok(_)),
{
}

} // verus!
