use mqtt_sink::{
    Action, Awaiting, EventStatus, Input, MqttConnector, MqttSink, Observation, QoS, RenderError,
};
use rumqttc::{ConnectionError, MqttOptions};

fn sink() -> MqttSink<String> {
    let options = MqttOptions::new("sink", "localhost", 1883);
    let connector = match MqttConnector::new(options, Ok(String::from("events"))) {
        Ok(connector) => connector,
        Err(_) => panic!("a compiled template must be accepted"),
    };
    MqttSink::new(connector)
}

fn describe(action: &Action) -> String {
    match action {
        Action::Open { .. } => String::from("open"),
        Action::Observe(Observation::ConnectionOpen { count }) => format!("gauge {}", count),
        Action::Observe(Observation::ConnectionError { .. }) => String::from("connection error"),
        Action::Observe(Observation::ClientError { .. }) => String::from("client error"),
        Action::Observe(Observation::TemplateRenderingError { error, field, drop_event }) => {
            format!("render error {:?} {:?} {}", error.reason, field, drop_event)
        }
        Action::Observe(Observation::EventsSent { count, byte_size }) => {
            format!("events sent {} {}", count, byte_size)
        }
        Action::Observe(Observation::BytesSent { byte_size, protocol }) => {
            format!("bytes sent {} {}", byte_size, protocol)
        }
        Action::DetachFinalizers => String::from("detach"),
        Action::Render => String::from("render"),
        Action::Transform => String::from("transform"),
        Action::Encode => String::from("encode"),
        Action::Publish(publication) => format!(
            "publish {} {:?} {} {:?}",
            publication.topic, publication.qos, publication.retain, publication.payload
        ),
        Action::Report(status) => format!("report {:?}", status),
        Action::Disconnect => String::from("disconnect"),
        Action::Release => String::from("release"),
        Action::Finish => String::from("finish"),
    }
}

fn tell(sink: &mut MqttSink<String>, input: Input) -> Vec<String> {
    match sink.step(input) {
        Ok(actions) => actions.iter().map(describe).collect(),
        Err(unexpected) => panic!("the sink did not wait for {:?}", unexpected),
    }
}

fn tell_all(sink: &mut MqttSink<String>, inputs: Vec<Input>) -> Vec<String> {
    let mut log = Vec::new();
    for input in inputs {
        log.extend(tell(sink, input));
    }
    log
}

fn count(log: &[String], wanted: &str) -> usize {
    log.iter().filter(|line| line.as_str() == wanted).count()
}

fn good_event(topic: &str, payload: &[u8]) -> Vec<Input> {
    vec![
        Input::EventTaken,
        Input::Rendered(Ok(String::from(topic))),
        Input::Encoded { event_byte_size: 64, payload: Ok(payload.to_vec()) },
        Input::Published(Ok(())),
    ]
}

fn refused_publish() -> rumqttc::ClientError {
    let (client, connection) = rumqttc::AsyncClient::new(MqttOptions::new("x", "localhost", 1883), 1);
    drop(connection);
    match client.try_publish("t", rumqttc::QoS::AtLeastOnce, false, vec![1u8]) {
        Err(error) => error,
        Ok(()) => panic!("a publish handle without its driver must refuse"),
    }
}

#[test]
fn empty_input_finishes_without_connecting() {
    let mut sink = sink();
    assert_eq!(sink.awaiting(), Awaiting::Peek);
    let log = tell(&mut sink, Input::Peeked(false));
    assert_eq!(log, vec!["finish"]);
    assert_eq!(sink.awaiting(), Awaiting::Nothing);
}

#[test]
fn scenario_two_events_are_published_in_order() {
    let mut sink = sink();
    let mut inputs = vec![Input::Peeked(true)];
    inputs.extend(good_event("t1", b"one"));
    inputs.extend(good_event("t2", b"two"));
    inputs.push(Input::UpstreamClosed);
    inputs.push(Input::Peeked(false));
    let log = tell_all(&mut sink, inputs);
    assert_eq!(
        log,
        vec![
            "open",
            "gauge 1",
            "detach",
            "render",
            "transform",
            "encode",
            "publish t1 AtLeastOnce false [111, 110, 101]",
            "events sent 1 64",
            "bytes sent 3 mqtt",
            "report Delivered",
            "detach",
            "render",
            "transform",
            "encode",
            "publish t2 AtLeastOnce false [116, 119, 111]",
            "events sent 1 64",
            "bytes sent 3 mqtt",
            "report Delivered",
            "disconnect",
            "gauge 0",
            "release",
            "finish",
        ]
    );
    assert_eq!(count(&log, "open"), 1);
    assert_eq!(count(&log, "disconnect"), 1);
    assert_eq!(count(&log, "report Delivered"), 2);
    assert_eq!(sink.awaiting(), Awaiting::Nothing);
}

#[test]
fn scenario_render_failure_keeps_the_connection() {
    let mut sink = sink();
    let log = tell_all(
        &mut sink,
        vec![
            Input::Peeked(true),
            Input::EventTaken,
            Input::Rendered(Err(RenderError { reason: String::from("missing field") })),
        ],
    );
    assert_eq!(
        log,
        vec![
            "open",
            "gauge 1",
            "detach",
            "render",
            "render error \"missing field\" Some(\"topic\") true",
            "report Errored",
        ]
    );
    assert_eq!(sink.awaiting(), Awaiting::Traffic);
    let log = tell_all(&mut sink, vec![Input::UpstreamClosed, Input::Peeked(false)]);
    assert_eq!(log, vec!["disconnect", "gauge 0", "release", "finish"]);
    assert_eq!(sink.awaiting(), Awaiting::Nothing);
}

#[test]
fn scenario_publish_failure_tears_the_connection_down() {
    let mut sink = sink();
    let log = tell_all(
        &mut sink,
        vec![
            Input::Peeked(true),
            Input::EventTaken,
            Input::Rendered(Ok(String::from("t1"))),
            Input::Encoded { event_byte_size: 8, payload: Ok(vec![1, 2]) },
            Input::Published(Err(refused_publish())),
        ],
    );
    assert_eq!(
        log,
        vec![
            "open",
            "gauge 1",
            "detach",
            "render",
            "transform",
            "encode",
            "publish t1 AtLeastOnce false [1, 2]",
            "client error",
            "report Errored",
            "gauge 0",
            "release",
        ]
    );
    assert_eq!(count(&log, "disconnect"), 0);
    assert_eq!(sink.awaiting(), Awaiting::Peek);
    let log = tell(&mut sink, Input::Peeked(false));
    assert_eq!(log, vec!["finish"]);
}

#[test]
fn scenario_transport_failure_reconnects_for_the_next_event() {
    let mut sink = sink();
    let mut inputs = vec![Input::Peeked(true)];
    inputs.extend(good_event("t1", b"a"));
    inputs.push(Input::Polled(Err(ConnectionError::NetworkTimeout)));
    let log = tell_all(&mut sink, inputs);
    assert_eq!(count(&log, "report Delivered"), 1);
    assert_eq!(
        log[log.len() - 3..].to_vec(),
        vec!["connection error", "gauge 0", "release"]
    );
    assert_eq!(count(&log, "disconnect"), 0);
    assert_eq!(sink.awaiting(), Awaiting::Peek);

    let mut inputs = vec![Input::Peeked(true)];
    inputs.extend(good_event("t2", b"b"));
    let log = tell_all(&mut sink, inputs);
    assert_eq!(log[0], "open");
    assert_eq!(log[1], "gauge 1");
    assert_eq!(count(&log, "publish t2 AtLeastOnce false [98]"), 1);
    assert_eq!(count(&log, "report Delivered"), 1);
    assert_eq!(sink.awaiting(), Awaiting::Traffic);
}

#[test]
fn encode_failure_reports_errored_and_publishes_nothing() {
    let mut sink = sink();
    let log = tell_all(
        &mut sink,
        vec![
            Input::Peeked(true),
            Input::EventTaken,
            Input::Rendered(Ok(String::from("t1"))),
            Input::Encoded { event_byte_size: 8, payload: Err(()) },
        ],
    );
    assert_eq!(
        log,
        vec!["open", "gauge 1", "detach", "render", "transform", "encode", "report Errored"]
    );
    assert_eq!(sink.awaiting(), Awaiting::Traffic);
    let log = tell_all(&mut sink, good_event("t2", b"z"));
    assert_eq!(count(&log, "open"), 0);
    assert_eq!(count(&log, "publish t2 AtLeastOnce false [122]"), 1);
}

#[test]
fn healthy_transport_poll_changes_nothing() {
    let mut sink = sink();
    tell(&mut sink, Input::Peeked(true));
    let log = tell_all(&mut sink, vec![Input::Polled(Ok(())), Input::Polled(Ok(()))]);
    assert!(log.is_empty());
    assert_eq!(sink.awaiting(), Awaiting::Traffic);
}

#[test]
fn every_event_gets_exactly_one_report() {
    let mut sink = sink();
    let mut inputs = vec![Input::Peeked(true)];
    inputs.extend(good_event("a", b"1"));
    inputs.push(Input::EventTaken);
    inputs.push(Input::Rendered(Err(RenderError { reason: String::from("no key") })));
    inputs.push(Input::EventTaken);
    inputs.push(Input::Rendered(Ok(String::from("c"))));
    inputs.push(Input::Encoded { event_byte_size: 1, payload: Err(()) });
    inputs.push(Input::EventTaken);
    inputs.push(Input::Rendered(Ok(String::from("d"))));
    inputs.push(Input::Encoded { event_byte_size: 1, payload: Ok(vec![4]) });
    inputs.push(Input::Published(Err(refused_publish())));
    inputs.push(Input::Peeked(true));
    inputs.extend(good_event("e", b"5"));
    inputs.push(Input::UpstreamClosed);
    inputs.push(Input::Peeked(false));
    let taken = inputs.iter().filter(|input| matches!(input, Input::EventTaken)).count();
    let log = tell_all(&mut sink, inputs);
    let reports: Vec<&String> = log.iter().filter(|line| line.starts_with("report")).collect();
    assert_eq!(taken, 5);
    assert_eq!(
        reports,
        vec![
            "report Delivered",
            "report Errored",
            "report Errored",
            "report Errored",
            "report Delivered"
        ]
    );
    assert_eq!(count(&log, "open"), 2);
    assert_eq!(count(&log, "release"), 2);
    assert_eq!(count(&log, "disconnect"), 1);
}

#[test]
fn publish_calls_follow_the_upstream_order() {
    let mut sink = sink();
    let mut inputs = vec![Input::Peeked(true)];
    for topic in ["t0", "t1", "t2", "t3"] {
        inputs.extend(good_event(topic, topic.as_bytes()));
        inputs.push(Input::Polled(Ok(())));
    }
    let log = tell_all(&mut sink, inputs);
    let published: Vec<&str> = log
        .iter()
        .filter(|line| line.starts_with("publish"))
        .map(|line| &line[8..10])
        .collect();
    assert_eq!(published, vec!["t0", "t1", "t2", "t3"]);
}

#[test]
fn unexpected_input_is_handed_back_and_changes_nothing() {
    let mut sink = sink();
    match sink.step(Input::EventTaken) {
        Err(unexpected) => assert!(matches!(unexpected.0, Input::EventTaken)),
        Ok(_) => panic!("an idle sink takes no event"),
    }
    assert_eq!(sink.awaiting(), Awaiting::Peek);
    tell_all(&mut sink, vec![Input::Peeked(true), Input::EventTaken]);
    match sink.step(Input::Encoded { event_byte_size: 3, payload: Ok(vec![9]) }) {
        Err(unexpected) => match unexpected.0 {
            Input::Encoded { event_byte_size, payload } => {
                assert_eq!(event_byte_size, 3);
                assert_eq!(payload, Ok(vec![9]));
            }
            _ => panic!("another input came back"),
        },
        Ok(_) => panic!("nothing was rendered yet"),
    }
    assert_eq!(sink.awaiting(), Awaiting::Topic);
}

#[test]
fn finished_sink_ignores_everything() {
    let mut sink = sink();
    tell(&mut sink, Input::Peeked(false));
    assert!(sink.step(Input::Peeked(true)).is_err());
    assert!(sink.step(Input::EventTaken).is_err());
    assert!(sink.step(Input::Polled(Ok(()))).is_err());
    assert_eq!(sink.awaiting(), Awaiting::Nothing);
}

#[test]
fn awaiting_follows_the_pipeline() {
    let mut sink = sink();
    assert_eq!(sink.awaiting(), Awaiting::Peek);
    tell(&mut sink, Input::Peeked(true));
    assert_eq!(sink.awaiting(), Awaiting::Traffic);
    tell(&mut sink, Input::EventTaken);
    assert_eq!(sink.awaiting(), Awaiting::Topic);
    tell(&mut sink, Input::Rendered(Ok(String::from("t"))));
    assert_eq!(sink.awaiting(), Awaiting::Payload);
    tell(&mut sink, Input::Encoded { event_byte_size: 0, payload: Ok(Vec::new()) });
    assert_eq!(sink.awaiting(), Awaiting::Acceptance);
    tell(&mut sink, Input::Published(Ok(())));
    assert_eq!(sink.awaiting(), Awaiting::Traffic);
}

#[test]
fn empty_payload_is_published_and_counted_as_zero_bytes() {
    let mut sink = sink();
    let log = tell_all(
        &mut sink,
        vec![
            Input::Peeked(true),
            Input::EventTaken,
            Input::Rendered(Ok(String::new())),
            Input::Encoded { event_byte_size: 0, payload: Ok(Vec::new()) },
            Input::Published(Ok(())),
        ],
    );
    assert_eq!(
        log[6..].to_vec(),
        vec!["publish  AtLeastOnce false []", "events sent 1 0", "bytes sent 0 mqtt", "report Delivered"]
    );
}

#[test]
fn publication_carries_fixed_qos_and_retain() {
    let mut sink = sink();
    tell_all(
        &mut sink,
        vec![Input::Peeked(true), Input::EventTaken, Input::Rendered(Ok(String::from("a/b")))],
    );
    let actions = sink
        .step(Input::Encoded { event_byte_size: 12, payload: Ok(vec![7, 7, 7]) })
        .unwrap();
    assert_eq!(actions.len(), 1);
    match &actions[0] {
        Action::Publish(publication) => {
            assert_eq!(publication.topic, "a/b");
            assert_eq!(publication.qos, QoS::AtLeastOnce);
            assert!(!publication.retain);
            assert_eq!(publication.payload, vec![7, 7, 7]);
        }
        _ => panic!("a publish call was due"),
    }
    assert_eq!(EventStatus::Delivered, EventStatus::Delivered);
    assert_ne!(EventStatus::Delivered, EventStatus::Errored);
}
