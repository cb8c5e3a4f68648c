//! The sink as a transition system over plain values.

use vstd::prelude::*;

use crate::protocol::{
    ActionView, Awaiting, EventStatus, InputView, Observation, PublicationView, QoS,
};

verus! {

/// Where the event in hand stands in the pipeline of one connection.
pub enum StageView {
    /// No event in hand: waiting for the transport or the upstream sequence,
    /// whichever is ready first.
    Waiting,
    /// Waiting for the topic to be rendered.
    Rendering,
    /// Waiting for the payload to be encoded.
    Encoding { topic: Seq<char> },
    /// Waiting for the publish call to return.
    Publishing { event_byte_size: usize, message_len: usize },
}

/// The state of a sink.
pub enum PhaseView {
    /// No connection held. Waiting to learn, by a peek, whether the upstream
    /// sequence has anything left.
    IdleCheck,
    /// A connection is held.
    Connected(StageView),
    /// The upstream sequence was found exhausted. Nothing follows.
    Finished,
}

/// One transition: the state reached and the actions asked for on the way.
pub struct Step {
    pub next: PhaseView,
    pub actions: Seq<ActionView>,
}

/// The quality of service of every publish call.
pub open spec fn publish_qos() -> QoS {
    QoS::AtLeastOnce
}

/// The retain flag of every publish call.
pub open spec fn publish_retain() -> bool {
    false
}

/// What a sink in `phase` is waiting to be told.
pub open spec fn awaited(phase: PhaseView) -> Awaiting {
    match phase {
        PhaseView::IdleCheck => Awaiting::Peek,
        PhaseView::Connected(StageView::Waiting) => Awaiting::Traffic,
        PhaseView::Connected(StageView::Rendering) => Awaiting::Topic,
        PhaseView::Connected(StageView::Encoding { .. }) => Awaiting::Payload,
        PhaseView::Connected(StageView::Publishing { .. }) => Awaiting::Acceptance,
        PhaseView::Finished => Awaiting::Nothing,
    }
}

/// Whether `input` tells a sink what it is `awaiting`.
pub open spec fn answers(awaiting: Awaiting, input: InputView) -> bool {
    match awaiting {
        Awaiting::Peek => input is Peeked,
        Awaiting::Traffic => input is Polled || input is EventTaken || input is UpstreamClosed,
        Awaiting::Topic => input is Rendered,
        Awaiting::Payload => input is Encoded,
        Awaiting::Acceptance => input is Published,
        Awaiting::Nothing => false,
    }
}

/// What the sink does in `phase` when told `input`, or `None` if `phase`
/// does not wait for such an input.
pub open spec fn transition(phase: PhaseView, input: InputView) -> Option<Step> {
    match (phase, input) {
        (PhaseView::IdleCheck, InputView::Peeked(false)) => Some(
            Step { next: PhaseView::Finished, actions: seq![ActionView::Finish] },
        ),
        (PhaseView::IdleCheck, InputView::Peeked(true)) => Some(
            Step {
                next: PhaseView::Connected(StageView::Waiting),
                actions: seq![
                    ActionView::Open,
                    ActionView::Observe(Observation::ConnectionOpen { count: 1 }),
                ],
            },
        ),
        (PhaseView::Connected(StageView::Waiting), InputView::Polled(Ok(_))) => Some(
            Step { next: PhaseView::Connected(StageView::Waiting), actions: seq![] },
        ),
        (PhaseView::Connected(StageView::Waiting), InputView::Polled(Err(error))) => Some(
            Step {
                next: PhaseView::IdleCheck,
                actions: seq![
                    ActionView::Observe(Observation::ConnectionError { error }),
                    ActionView::Observe(Observation::ConnectionOpen { count: 0 }),
                    ActionView::Release,
                ],
            },
        ),
        (PhaseView::Connected(StageView::Waiting), InputView::UpstreamClosed) => Some(
            Step {
                next: PhaseView::IdleCheck,
                actions: seq![
                    ActionView::Disconnect,
                    ActionView::Observe(Observation::ConnectionOpen { count: 0 }),
                    ActionView::Release,
                ],
            },
        ),
        (PhaseView::Connected(StageView::Waiting), InputView::EventTaken) => Some(
            Step {
                next: PhaseView::Connected(StageView::Rendering),
                actions: seq![ActionView::DetachFinalizers, ActionView::Render],
            },
        ),
        (PhaseView::Connected(StageView::Rendering), InputView::Rendered(Ok(topic))) => Some(
            Step {
                next: PhaseView::Connected(StageView::Encoding { topic }),
                actions: seq![ActionView::Transform, ActionView::Encode],
            },
        ),
        (PhaseView::Connected(StageView::Rendering), InputView::Rendered(Err(error))) => Some(
            Step {
                next: PhaseView::Connected(StageView::Waiting),
                actions: seq![
                    ActionView::Observe(
                        Observation::TemplateRenderingError {
                            error,
                            field: Some("topic"),
                            drop_event: true,
                        },
                    ),
                    ActionView::Report(EventStatus::Errored),
                ],
            },
        ),
        (
            PhaseView::Connected(StageView::Encoding { topic }),
            InputView::Encoded { event_byte_size, payload: Ok(payload) },
        ) => Some(
            Step {
                next: PhaseView::Connected(
                    StageView::Publishing { event_byte_size, message_len: payload.len() as usize },
                ),
                actions: seq![
                    ActionView::Publish(
                        PublicationView {
                            topic,
                            qos: publish_qos(),
                            retain: publish_retain(),
                            payload,
                        },
                    ),
                ],
            },
        ),
        (
            PhaseView::Connected(StageView::Encoding { .. }),
            InputView::Encoded { payload: Err(_), .. },
        ) => Some(
            Step {
                next: PhaseView::Connected(StageView::Waiting),
                actions: seq![ActionView::Report(EventStatus::Errored)],
            },
        ),
        (
            PhaseView::Connected(StageView::Publishing { event_byte_size, message_len }),
            InputView::Published(Ok(_)),
        ) => Some(
            Step {
                next: PhaseView::Connected(StageView::Waiting),
                actions: seq![
                    ActionView::Observe(
                        Observation::EventsSent { count: 1, byte_size: event_byte_size },
                    ),
                    ActionView::Observe(
                        Observation::BytesSent { byte_size: message_len, protocol: "mqtt" },
                    ),
                    ActionView::Report(EventStatus::Delivered),
                ],
            },
        ),
        (
            PhaseView::Connected(StageView::Publishing { .. }),
            InputView::Published(Err(error)),
        ) => Some(
            Step {
                next: PhaseView::IdleCheck,
                actions: seq![
                    ActionView::Observe(Observation::ClientError { error }),
                    ActionView::Report(EventStatus::Errored),
                    ActionView::Observe(Observation::ConnectionOpen { count: 0 }),
                    ActionView::Release,
                ],
            },
        ),
        _ => None,
    }
}

} // verus!
