//! What a sink is told and what it asks for.
//!
//! The sink never performs I/O. Its caller reports each outcome as an
//! [`Input`] and carries out the [`Action`]s it gets back, in order.

use vstd::prelude::*;

use rumqttc::{AsyncClient, ClientError, ConnectionError, EventLoop};

verus! {

/// The terminal delivery status of one event.
#[derive(Clone, Copy, Debug, PartialEq, Eq, Structural)]
pub enum EventStatus {
    /// The publish call for the event was accepted.
    Delivered,
    /// The event was given up: its topic could not be rendered, it could not
    /// be encoded, or the publish call failed.
    Errored,
}

/// The delivery guarantee asked of the broker for one message.
#[derive(Clone, Copy, Debug, PartialEq, Eq, Structural)]
pub enum QoS {
    AtMostOnce,
    AtLeastOnce,
    ExactlyOnce,
}

/// Why the topic of one event could not be rendered.
#[derive(Debug)]
pub struct RenderError {
    pub reason: String,
}

/// One publish call: everything the publish handle is given.
#[derive(Debug)]
pub struct Publication {
    pub topic: String,
    pub qos: QoS,
    pub retain: bool,
    pub payload: Vec<u8>,
}

/// A [`Publication`] as plain values.
pub struct PublicationView {
    pub topic: Seq<char>,
    pub qos: QoS,
    pub retain: bool,
    pub payload: Seq<u8>,
}

impl View for Publication {
    type V = PublicationView;

    open spec fn view(&self) -> PublicationView {
        PublicationView {
            topic: self.topic@,
            qos: self.qos,
            retain: self.retain,
            payload: self.payload@,
        }
    }
}

/// Something worth telling the telemetry hooks. Observations never change
/// what the sink does next.
#[derive(Debug)]
#[allow(inconsistent_fields)]
pub enum Observation {
    /// The number of connections this sink holds open has changed.
    ConnectionOpen { count: usize },
    /// Polling the transport driver failed.
    ConnectionError { error: ConnectionError },
    /// The publish handle refused a request.
    ClientError { error: ClientError },
    /// A template could not be rendered for an event.
    TemplateRenderingError { error: RenderError, field: Option<&'static str>, drop_event: bool },
    /// Events were handed to the broker connection.
    EventsSent { count: usize, byte_size: usize },
    /// Payload bytes were handed to the broker connection.
    BytesSent { byte_size: usize, protocol: &'static str },
}

/// An outcome reported to the sink.
#[derive(Debug)]
pub enum Input {
    /// The upstream sequence was peeked without taking anything: `true` if
    /// an event is waiting, `false` if the sequence is exhausted.
    Peeked(bool),
    /// The transport driver was polled once.
    Polled(Result<(), ConnectionError>),
    /// The next event was taken from the upstream sequence.
    EventTaken,
    /// The upstream sequence yielded nothing further.
    UpstreamClosed,
    /// The topic template was rendered for the event in hand.
    Rendered(Result<String, RenderError>),
    /// The transformed event was measured and encoded.
    Encoded { event_byte_size: usize, payload: Result<Vec<u8>, ()> },
    /// The publish call returned.
    Published(Result<(), ClientError>),
}

/// An [`Input`] as plain values.
pub enum InputView {
    Peeked(bool),
    Polled(Result<(), ConnectionError>),
    EventTaken,
    UpstreamClosed,
    Rendered(Result<Seq<char>, RenderError>),
    Encoded { event_byte_size: usize, payload: Result<Seq<u8>, ()> },
    Published(Result<(), ClientError>),
}

impl View for Input {
    type V = InputView;

    open spec fn view(&self) -> InputView {
        match *self {
            Input::Peeked(available) => InputView::Peeked(available),
            Input::Polled(outcome) => InputView::Polled(outcome),
            Input::EventTaken => InputView::EventTaken,
            Input::UpstreamClosed => InputView::UpstreamClosed,
            Input::Rendered(Ok(topic)) => InputView::Rendered(Ok(topic@)),
            Input::Rendered(Err(error)) => InputView::Rendered(Err(error)),
            Input::Encoded { event_byte_size, payload: Ok(bytes) } => InputView::Encoded {
                event_byte_size,
                payload: Ok(bytes@),
            },
            Input::Encoded { event_byte_size, payload: Err(_) } => InputView::Encoded {
                event_byte_size,
                payload: Err(()),
            },
            Input::Published(outcome) => InputView::Published(outcome),
        }
    }
}

/// Something the sink asks its caller to do.
pub enum Action {
    /// Start driving this fresh connection: poll `connection`, publish
    /// through `client`.
    Open { client: AsyncClient, connection: EventLoop },
    /// Tell the telemetry hooks.
    Observe(Observation),
    /// Detach the finalizer from the event in hand, so that its status can
    /// be reported whatever becomes of the event itself.
    DetachFinalizers,
    /// Render the topic of the event in hand, and report [`Input::Rendered`].
    Render,
    /// Apply the value transform to the event in hand, in place.
    Transform,
    /// Measure and encode the event in hand, and report [`Input::Encoded`].
    Encode,
    /// Make this publish call, and report [`Input::Published`].
    Publish(Publication),
    /// Report this status on the detached finalizer.
    Report(EventStatus),
    /// Ask the current connection to close gracefully. Whether that works is
    /// nobody's concern.
    Disconnect,
    /// Drop the current connection.
    Release,
    /// Return successfully: the upstream sequence is exhausted.
    Finish,
}

/// An [`Action`] as plain values. A fresh connection has no view of its own.
pub enum ActionView {
    Open,
    Observe(Observation),
    DetachFinalizers,
    Render,
    Transform,
    Encode,
    Publish(PublicationView),
    Report(EventStatus),
    Disconnect,
    Release,
    Finish,
}

impl View for Action {
    type V = ActionView;

    open spec fn view(&self) -> ActionView {
        match *self {
            Action::Open { .. } => ActionView::Open,
            Action::Observe(observation) => ActionView::Observe(observation),
            Action::DetachFinalizers => ActionView::DetachFinalizers,
            Action::Render => ActionView::Render,
            Action::Transform => ActionView::Transform,
            Action::Encode => ActionView::Encode,
            Action::Publish(publication) => ActionView::Publish(publication@),
            Action::Report(status) => ActionView::Report(status),
            Action::Disconnect => ActionView::Disconnect,
            Action::Release => ActionView::Release,
            Action::Finish => ActionView::Finish,
        }
    }
}

/// Whether `views` are the views of `actions`, one for one and in order.
pub open spec fn viewed_as(actions: Seq<Action>, views: Seq<ActionView>) -> bool {
    &&& actions.len() == views.len()
    &&& forall|i: int| 0 <= i < actions.len() ==> (#[trigger] actions[i])@ == views[i]
}

/// What a sink is waiting to be told.
#[derive(Clone, Copy, Debug, PartialEq, Eq, Structural)]
pub enum Awaiting {
    /// Whether the upstream sequence has an event waiting: [`Input::Peeked`].
    Peek,
    /// Whichever comes first of the transport driver and the upstream
    /// sequence: [`Input::Polled`], [`Input::EventTaken`] or
    /// [`Input::UpstreamClosed`].
    Traffic,
    /// The rendered topic: [`Input::Rendered`].
    Topic,
    /// The encoded payload: [`Input::Encoded`].
    Payload,
    /// The outcome of the publish call: [`Input::Published`].
    Acceptance,
    /// Nothing: the sink has finished.
    Nothing,
}

/// An input that the sink was not waiting for, handed back untouched.
#[derive(Debug)]
pub struct Unexpected(pub Input);

} // verus!
