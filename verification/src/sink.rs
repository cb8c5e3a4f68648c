//! The sink: the reconnect loop and the event pipeline, one decision at a
//! time.

use vstd::prelude::*;

use crate::connector::{MqttConnector, REQUEST_QUEUE_DEPTH};
use crate::model::{awaited, transition, PhaseView, StageView};
use crate::protocol::{
    viewed_as, Action, Awaiting, EventStatus, Input, Observation, Publication, QoS,
    Unexpected,
};
use crate::transport::{connection_parameters, request_queue_capacity};

verus! {

/// The quality of service of every publish call: the broker acknowledges
/// each message, and may see it more than once.
pub const PUBLISH_QOS: QoS = QoS::AtLeastOnce;

/// The retain flag of every publish call.
pub const PUBLISH_RETAIN: bool = false;

/// Whether `action`, if it hands out a fresh connection, hands out one made
/// by `connector`: bound to its parameters, with the fixed queue depth.
pub open spec fn drawn_from<T>(action: Action, connector: MqttConnector<T>) -> bool {
    action matches Action::Open { connection, .. } ==> connection_parameters(connection)
        == connector.spec_options() && request_queue_capacity(connection)
        == REQUEST_QUEUE_DEPTH
}

/// Where the event in hand stands in the pipeline of one connection.
enum Stage {
    Waiting,
    Rendering,
    Encoding { topic: String },
    Publishing { event_byte_size: usize, message_len: usize },
}

impl View for Stage {
    type V = StageView;

    closed spec fn view(&self) -> StageView {
        match *self {
            Stage::Waiting => StageView::Waiting,
            Stage::Rendering => StageView::Rendering,
            Stage::Encoding { topic } => StageView::Encoding { topic: topic@ },
            Stage::Publishing { event_byte_size, message_len } => StageView::Publishing {
                event_byte_size,
                message_len,
            },
        }
    }
}

/// The state of a sink.
enum Phase {
    IdleCheck,
    Connected(Stage),
    Finished,
}

impl View for Phase {
    type V = PhaseView;

    closed spec fn view(&self) -> PhaseView {
        match *self {
            Phase::IdleCheck => PhaseView::IdleCheck,
            Phase::Connected(stage) => PhaseView::Connected(stage@),
            Phase::Finished => PhaseView::Finished,
        }
    }
}

/// A streaming publisher: drains an upstream sequence of events into a
/// broker, reconnecting when the transport fails and reporting one delivery
/// status for every event it takes.
pub struct MqttSink<T> {
    connector: MqttConnector<T>,
    phase: Phase,
}

impl<T> View for MqttSink<T> {
    type V = PhaseView;

    closed spec fn view(&self) -> PhaseView {
        self.phase@
    }
}

impl<T> MqttSink<T> {
    /// The connector the sink draws its connections from.
    pub closed spec fn spec_connector(&self) -> MqttConnector<T> {
        self.connector
    }

    /// A sink that has done nothing yet: it holds no connection and waits
    /// for the first peek at the upstream sequence.
    pub fn new(connector: MqttConnector<T>) -> (sink: Self)
        ensures
            sink@ == PhaseView::IdleCheck,
            sink.spec_connector() == connector,
    {
        MqttSink { connector, phase: Phase::IdleCheck }
    }

    /// The connector the sink draws its connections from.
    pub fn connector(&self) -> (connector: &MqttConnector<T>)
        ensures
            *connector == self.spec_connector(),
    {
        &self.connector
    }

    /// What the sink is waiting to be told.
    pub fn awaiting(&self) -> (awaiting: Awaiting)
        ensures
            awaiting == awaited(self@),
    {
        match &self.phase {
            Phase::IdleCheck => Awaiting::Peek,
            Phase::Connected(Stage::Waiting) => Awaiting::Traffic,
            Phase::Connected(Stage::Rendering) => Awaiting::Topic,
            Phase::Connected(Stage::Encoding { .. }) => Awaiting::Payload,
            Phase::Connected(Stage::Publishing { .. }) => Awaiting::Acceptance,
            Phase::Finished => Awaiting::Nothing,
        }
    }

    /// Tells the sink what happened and learns what to do next.
    ///
    /// If the sink was waiting for `input`, it moves on as [`transition`]
    /// says and returns the actions to carry out, in order. If not, nothing
    /// changes and the input comes back untouched. A connection handed out
    /// on the way was made by the sink's connector.
    pub fn step(&mut self, input: Input) -> (outcome: Result<Vec<Action>, Unexpected>)
        ensures
            final(self).spec_connector() == old(self).spec_connector(),
            outcome matches Ok(actions) ==> forall|i: int|
                0 <= i < actions@.len() ==> drawn_from(
                    #[trigger] actions@[i],
                    old(self).spec_connector(),
                ),
            match transition(old(self)@, input@) {
                Some(step) => outcome matches Ok(actions) && final(self)@ == step.next
                    && viewed_as(actions@, step.actions),
                None => outcome matches Err(unexpected) && unexpected.0 == input && final(self)@
                    == old(self)@,
            },
    {
        let mut phase = Phase::Finished;
        core::mem::swap(&mut self.phase, &mut phase);
        let (next, outcome) = match phase {
            Phase::IdleCheck => Self::idle_check(&self.connector, input),
            Phase::Connected(stage) => Self::handle_event(stage, input),
            Phase::Finished => (Phase::Finished, Err(Unexpected(input))),
        };
        self.phase = next;
        outcome
    }

    /// The decision between two connections: finish if the upstream
    /// sequence is exhausted, connect if it is not.
    fn idle_check(connector: &MqttConnector<T>, input: Input) -> (out: (
        Phase,
        Result<Vec<Action>, Unexpected>,
    ))
        ensures
            out.1 matches Ok(actions) ==> forall|i: int|
                0 <= i < actions@.len() ==> drawn_from(#[trigger] actions@[i], *connector),
            match transition(PhaseView::IdleCheck, input@) {
                Some(step) => out.1 matches Ok(actions) && out.0@ == step.next && viewed_as(
                    actions@,
                    step.actions,
                ),
                None => out.1 matches Err(unexpected) && unexpected.0 == input && out.0@
                    == PhaseView::IdleCheck,
            },
    {
        match input {
            Input::Peeked(false) => (Phase::Finished, Ok(vec![Action::Finish])),
            Input::Peeked(true) => {
                let (client, connection) = connector.connect();
                let actions = vec![
                    Action::Open { client, connection },
                    Action::Observe(Observation::ConnectionOpen { count: 1 }),
                ];
                (Phase::Connected(Stage::Waiting), Ok(actions))
            },
            input => (Phase::IdleCheck, Err(Unexpected(input))),
        }
    }

    /// One decision on a live connection: what to make of a transport
    /// outcome, of the next upstream event, or of a finished pipeline step.
    fn handle_event(stage: Stage, input: Input) -> (out: (
        Phase,
        Result<Vec<Action>, Unexpected>,
    ))
        ensures
            out.1 matches Ok(actions) ==> forall|i: int|
                0 <= i < actions@.len() ==> !((#[trigger] actions@[i]) is Open),
            match transition(PhaseView::Connected(stage@), input@) {
                Some(step) => out.1 matches Ok(actions) && out.0@ == step.next && viewed_as(
                    actions@,
                    step.actions,
                ),
                None => out.1 matches Err(unexpected) && unexpected.0 == input && out.0@
                    == PhaseView::Connected(stage@),
            },
    {
        match (stage, input) {
            (Stage::Waiting, Input::Polled(Ok(_))) => (
                Phase::Connected(Stage::Waiting),
                Ok(Vec::new()),
            ),
            (Stage::Waiting, Input::Polled(Err(error))) => (
                Phase::IdleCheck,
                Ok(
                    vec![
                        Action::Observe(Observation::ConnectionError { error }),
                        Action::Observe(Observation::ConnectionOpen { count: 0 }),
                        Action::Release,
                    ],
                ),
            ),
            (Stage::Waiting, Input::UpstreamClosed) => (
                Phase::IdleCheck,
                Ok(
                    vec![
                        Action::Disconnect,
                        Action::Observe(Observation::ConnectionOpen { count: 0 }),
                        Action::Release,
                    ],
                ),
            ),
            (Stage::Waiting, Input::EventTaken) => (
                Phase::Connected(Stage::Rendering),
                Ok(vec![Action::DetachFinalizers, Action::Render]),
            ),
            (Stage::Rendering, Input::Rendered(Ok(topic))) => (
                Phase::Connected(Stage::Encoding { topic }),
                Ok(vec![Action::Transform, Action::Encode]),
            ),
            (Stage::Rendering, Input::Rendered(Err(error))) => (
                Phase::Connected(Stage::Waiting),
                Ok(
                    vec![
                        Action::Observe(
                            Observation::TemplateRenderingError {
                                error,
                                field: Some("topic"),
                                drop_event: true,
                            },
                        ),
                        Action::Report(EventStatus::Errored),
                    ],
                ),
            ),
            (Stage::Encoding { topic }, Input::Encoded { event_byte_size, payload: Ok(payload) }) => {
                let message_len = payload.len();
                let publication = Publication {
                    topic,
                    qos: PUBLISH_QOS,
                    retain: PUBLISH_RETAIN,
                    payload,
                };
                (
                    Phase::Connected(Stage::Publishing { event_byte_size, message_len }),
                    Ok(vec![Action::Publish(publication)]),
                )
            },
            (Stage::Encoding { .. }, Input::Encoded { payload: Err(_), .. }) => (
                Phase::Connected(Stage::Waiting),
                Ok(vec![Action::Report(EventStatus::Errored)]),
            ),
            (Stage::Publishing { event_byte_size, message_len }, Input::Published(Ok(_))) => (
                Phase::Connected(Stage::Waiting),
                Ok(
                    vec![
                        Action::Observe(
                            Observation::EventsSent { count: 1, byte_size: event_byte_size },
                        ),
                        Action::Observe(
                            Observation::BytesSent { byte_size: message_len, protocol: "mqtt" },
                        ),
                        Action::Report(EventStatus::Delivered),
                    ],
                ),
            ),
            (Stage::Publishing { .. }, Input::Published(Err(error))) => (
                Phase::IdleCheck,
                Ok(
                    vec![
                        Action::Observe(Observation::ClientError { error }),
                        Action::Report(EventStatus::Errored),
                        Action::Observe(Observation::ConnectionOpen { count: 0 }),
                        Action::Release,
                    ],
                ),
            ),
            (stage, input) => (Phase::Connected(stage), Err(Unexpected(input))),
        }
    }
}

} // verus!
