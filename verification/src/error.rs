//! Errors that stop a sink before or while it runs.

use vstd::prelude::*;

verus! {

/// Why a topic pattern could not be compiled into a template.
#[derive(Debug)]
pub struct TemplateParseError {
    pub reason: String,
}

/// Why the TLS settings of a connection could not be applied.
#[derive(Debug)]
pub struct TlsError {
    pub reason: String,
}

/// The failures of an MQTT sink, each with its cause.
#[derive(Debug)]
#[allow(inconsistent_fields)]
pub enum MqttError {
    /// The topic pattern is malformed.
    TopicTemplate { source: TemplateParseError },
    /// The transport to the broker failed.
    Connection { source: rumqttc::ConnectionError },
    /// The TLS settings were rejected.
    Tls { source: TlsError },
    /// The publish handle refused a request.
    Client { source: rumqttc::ClientError },
}

} // verus!
