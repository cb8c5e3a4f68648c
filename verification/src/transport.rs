//! The MQTT client crate as this library sees it.
//!
//! Every type here is opaque to the verifier: a value can be created, moved
//! and handed on, but nothing is known of what it holds.

use vstd::prelude::*;

verus! {

/// `rumqttc::MqttOptions`: broker address, credentials, keep-alive and the
/// other connection parameters. Nothing is assumed about its contents.
#[verifier::external_type_specification]
#[verifier::external_body]
pub struct ExMqttOptions(rumqttc::MqttOptions);

/// `rumqttc::AsyncClient`: the publish handle of one connection. Nothing is
/// assumed about its contents.
#[verifier::external_type_specification]
#[verifier::external_body]
pub struct ExAsyncClient(rumqttc::AsyncClient);

/// `rumqttc::EventLoop`: the transport driver of one connection. Nothing is
/// assumed about its contents.
#[verifier::external_type_specification]
#[verifier::external_body]
pub struct ExEventLoop(rumqttc::EventLoop);

/// `rumqttc::ConnectionError`: why polling the transport driver failed.
/// Nothing is assumed about its contents.
#[verifier::external_type_specification]
#[verifier::external_body]
pub struct ExConnectionError(rumqttc::ConnectionError);

/// `rumqttc::ClientError`: why the publish handle refused a request. Nothing
/// is assumed about its contents.
#[verifier::external_type_specification]
#[verifier::external_body]
pub struct ExClientError(rumqttc::ClientError);

/// The connection parameters that a transport driver holds: those it was
/// made with, until its owner changes them.
pub uninterp spec fn connection_parameters(connection: rumqttc::EventLoop) -> rumqttc::MqttOptions;

/// How many requests may wait in the queue of a transport driver: the
/// capacity it was made with.
pub uninterp spec fn request_queue_capacity(connection: rumqttc::EventLoop) -> usize;

/// `rumqttc::AsyncClient::new` builds a publish handle and the transport
/// driver it feeds. It opens no socket and cannot fail. The driver keeps the
/// parameters it is given, and the queue between handle and driver is
/// bounded by the capacity it is given. Nothing else is assumed about the
/// pair.
pub assume_specification[ rumqttc::AsyncClient::new ](
    options: rumqttc::MqttOptions,
    cap: usize,
) -> (pair: (rumqttc::AsyncClient, rumqttc::EventLoop))
    ensures
        connection_parameters(pair.1) == options,
        request_queue_capacity(pair.1) == cap,
;

/// `Clone::clone` of `rumqttc::MqttOptions`, which the crate derives: every
/// field is copied, so the copy equals what it was made from.
pub assume_specification[ <rumqttc::MqttOptions as Clone>::clone ](
    options: &rumqttc::MqttOptions,
) -> (copy: rumqttc::MqttOptions)
    ensures
        copy == *options,
;

} // verus!
