use mqtt_sink::connector::REQUEST_QUEUE_DEPTH;
use mqtt_sink::{Action, Input, MqttConnector, MqttError, MqttSink, TemplateParseError};
use rumqttc::MqttOptions;

fn options() -> MqttOptions {
    MqttOptions::new("sink", "localhost", 1883)
}

#[test]
fn connector_keeps_the_compiled_template() {
    let connector = MqttConnector::new(options(), Ok(String::from("metrics/{{ host }}"))).unwrap();
    assert_eq!(connector.topic(), "metrics/{{ host }}");
    assert_eq!(connector.options().broker_address(), (String::from("localhost"), 1883));
    assert_eq!(connector.options().client_id(), "sink");
}

#[test]
fn malformed_topic_pattern_is_a_topic_template_error() {
    let cause = TemplateParseError { reason: String::from("invalid strftime item") };
    let made: Result<MqttConnector<String>, MqttError> = MqttConnector::new(options(), Err(cause));
    match made {
        Err(MqttError::TopicTemplate { source }) => {
            assert_eq!(source.reason, "invalid strftime item")
        }
        Err(other) => panic!("another error came out: {:?}", other),
        Ok(_) => panic!("a malformed pattern must be refused"),
    }
}

#[test]
fn healthcheck_succeeds_without_a_broker() {
    let mut unreachable = MqttOptions::new("sink", "no-such-host.invalid", 1);
    unreachable.set_credentials("nobody", "nothing");
    let connector = MqttConnector::new(unreachable, Ok(())).unwrap();
    assert!(connector.healthcheck().is_ok());
    assert!(connector.healthcheck().is_ok());
}

#[test]
fn cloned_connector_is_as_good_as_the_first() {
    let connector = MqttConnector::new(options(), Ok(7u8)).unwrap();
    let copy = connector.clone();
    assert_eq!(*copy.topic(), 7);
    assert_eq!(copy.options().client_id(), connector.options().client_id());
    assert!(copy.healthcheck().is_ok());
}

#[test]
fn sink_draws_connections_from_its_connector() {
    let connector = MqttConnector::new(options(), Ok(String::from("t"))).unwrap();
    let mut sink = MqttSink::new(connector);
    assert_eq!(sink.connector().topic(), "t");
    let mut actions = sink.step(Input::Peeked(true)).unwrap();
    assert_eq!(actions.len(), 2);
    let connection = match actions.remove(0) {
        Action::Open { client, connection } => (client, connection),
        _ => panic!("a fresh connection was due"),
    };
    assert_eq!(connection.1.mqtt_options.client_id(), "sink");
    assert_eq!(
        connection.1.mqtt_options.broker_address(),
        (String::from("localhost"), 1883)
    );
    assert!(connection.1.network.is_none());
    assert!(connection
        .0
        .try_publish("t", rumqttc::QoS::AtLeastOnce, false, vec![1u8])
        .is_ok());
}

#[test]
fn fresh_connection_queues_requests_up_to_the_fixed_depth() {
    assert_eq!(REQUEST_QUEUE_DEPTH, 1024);
    let connector = MqttConnector::new(options(), Ok(())).unwrap();
    let mut sink = MqttSink::new(connector);
    let mut actions = sink.step(Input::Peeked(true)).unwrap();
    let (client, _connection) = match actions.remove(0) {
        Action::Open { client, connection } => (client, connection),
        _ => panic!("a fresh connection was due"),
    };
    for _ in 0..REQUEST_QUEUE_DEPTH {
        assert!(client
            .try_publish("t", rumqttc::QoS::AtLeastOnce, false, vec![0u8])
            .is_ok());
    }
    assert!(client
        .try_publish("t", rumqttc::QoS::AtLeastOnce, false, vec![0u8])
        .is_err());
}

#[test]
fn each_reconnect_hands_out_a_new_pair() {
    let connector = MqttConnector::new(options(), Ok(())).unwrap();
    let mut sink = MqttSink::new(connector);
    let mut first = sink.step(Input::Peeked(true)).unwrap();
    let (old_client, old_connection) = match first.remove(0) {
        Action::Open { client, connection } => (client, connection),
        _ => panic!("a fresh connection was due"),
    };
    sink.step(Input::Polled(Err(rumqttc::ConnectionError::RequestsDone))).unwrap();
    drop(old_connection);
    assert!(old_client
        .try_publish("t", rumqttc::QoS::AtLeastOnce, false, vec![0u8])
        .is_err());
    let mut second = sink.step(Input::Peeked(true)).unwrap();
    let (new_client, _new_connection) = match second.remove(0) {
        Action::Open { client, connection } => (client, connection),
        _ => panic!("a fresh connection was due"),
    };
    assert!(new_client
        .try_publish("t", rumqttc::QoS::AtLeastOnce, false, vec![0u8])
        .is_ok());
}

#[test]
fn connect_binds_the_pair_to_the_stored_parameters() {
    let mut stored = MqttOptions::new("probe", "broker.example", 8883);
    stored.set_keep_alive(std::time::Duration::from_secs(17));
    let connector = MqttConnector::new(stored, Ok(())).unwrap();
    let (client, connection) = connector.connect();
    assert_eq!(connection.mqtt_options.client_id(), "probe");
    assert_eq!(
        connection.mqtt_options.broker_address(),
        (String::from("broker.example"), 8883)
    );
    assert_eq!(connection.mqtt_options.keep_alive(), std::time::Duration::from_secs(17));
    assert_eq!(connector.options().keep_alive(), std::time::Duration::from_secs(17));
    assert!(connection.network.is_none());
    for _ in 0..REQUEST_QUEUE_DEPTH {
        assert!(client
            .try_publish("t", rumqttc::QoS::AtLeastOnce, false, vec![0u8])
            .is_ok());
    }
    assert!(client
        .try_publish("t", rumqttc::QoS::AtLeastOnce, false, vec![0u8])
        .is_err());
}
