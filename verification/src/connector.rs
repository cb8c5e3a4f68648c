//! The connector: immutable connection parameters and the compiled topic
//! template, from which fresh connections are made on demand.

use vstd::prelude::*;

use crate::error::{MqttError, TemplateParseError};
use rumqttc::{AsyncClient, EventLoop, MqttOptions};

verus! {

/// How many publish requests may wait between the publish handle and the
/// transport driver of one connection.
pub const REQUEST_QUEUE_DEPTH: usize = 1024;

/// Connection parameters and the topic template shared by every connection
/// and every event. `T` is the compiled template; the connector stores it
/// and never looks inside.
#[derive(Clone)]
pub struct MqttConnector<T> {
    options: MqttOptions,
    topic: T,
}

impl<T> MqttConnector<T> {
    /// The connection parameters the connector was built with.
    pub closed spec fn spec_options(&self) -> MqttOptions {
        self.options
    }

    /// The compiled topic template the connector was built with.
    pub closed spec fn spec_topic(&self) -> T {
        self.topic
    }

    /// Builds a connector from connection parameters and the outcome of
    /// compiling the topic pattern. A malformed pattern is the only way to
    /// fail; the parameters are not examined here.
    pub fn new(options: MqttOptions, topic: Result<T, TemplateParseError>) -> (made: Result<
        Self,
        MqttError,
    >)
        ensures
            match topic {
                Ok(template) => made matches Ok(connector) && connector.spec_options() == options
                    && connector.spec_topic() == template,
                Err(cause) => made == Err::<Self, MqttError>(
                    MqttError::TopicTemplate { source: cause },
                ),
            },
    {
        match topic {
            Ok(template) => Ok(MqttConnector { options, topic: template }),
            Err(cause) => Err(MqttError::TopicTemplate { source: cause }),
        }
    }

    /// The compiled topic template.
    pub fn topic(&self) -> (template: &T)
        ensures
            *template == self.spec_topic(),
    {
        &self.topic
    }

    /// The connection parameters.
    pub fn options(&self) -> (options: &MqttOptions)
        ensures
            *options == self.spec_options(),
    {
        &self.options
    }

    /// Makes a fresh publish handle and transport driver bound to the stored
    /// parameters. No network traffic happens here: the driver connects when
    /// it is first polled, and any failure to reach the broker shows up then.
    pub fn connect(&self) -> (pair: (AsyncClient, EventLoop))
        ensures
            crate::transport::connection_parameters(pair.1) == self.spec_options(),
            crate::transport::request_queue_capacity(pair.1) == REQUEST_QUEUE_DEPTH,
    {
        AsyncClient::new(self.options.clone(), REQUEST_QUEUE_DEPTH)
    }

    /// Checks that a connection can be constructed from the stored
    /// parameters, by making one and discarding it unused. The broker is not
    /// contacted, so success says nothing about reachability.
    pub fn healthcheck(&self) -> (outcome: Result<(), MqttError>)
        ensures
            outcome is Ok,
    {
        let (client, connection) = self.connect();
        let _ = client;
        let _ = connection;
        Ok(())
    }
}

} // verus!
