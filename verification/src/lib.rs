//! A reliable streaming publisher for MQTT brokers, written as a verified
//! state machine.
//!
//! The crate decides; its caller performs. A [`MqttSink`] is told what
//! happened (an upstream event arrived, the transport failed, a publish call
//! was accepted) and answers with the actions to carry out next, so that the
//! whole connection lifecycle and the delivery-status bookkeeping can be
//! proved without touching the network.

pub mod connector;
pub mod error;
pub mod laws;
pub mod model;
pub mod protocol;
pub mod sink;
pub mod trace;
pub mod transport;

pub use connector::MqttConnector;
pub use error::{MqttError, TemplateParseError, TlsError};
pub use protocol::{
    Action, Awaiting, EventStatus, Input, Observation, Publication, QoS, RenderError, Unexpected,
};
pub use sink::MqttSink;
