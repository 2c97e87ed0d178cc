use rustroast::bridge::{debug_frame, debug_reply, telemetry_frame};
use rustroast::event::MqttEvent;

fn publish(topic: &str, payload: &[u8]) -> MqttEvent {
    MqttEvent::Publish { topic: topic.to_string(), payload: payload.to_vec() }
}

fn parsed(text: &str) -> serde_json::Value {
    serde_json::from_str(text).unwrap()
}

#[test]
fn telemetry_is_forwarded_with_its_device() {
    let frame =
        telemetry_frame(&publish("roaster/dev1/telemetry", b"{\"beanTemp\":100.0,\"envTemp\":90.0}"))
            .unwrap();
    assert_eq!(
        parsed(&frame),
        parsed("{\"device_id\":\"dev1\",\"telemetry\":{\"beanTemp\":100.0,\"envTemp\":90.0}}")
    );
}

#[test]
fn telemetry_that_is_no_json_is_forwarded_raw() {
    let frame = telemetry_frame(&publish("roaster/dev1/telemetry", b"not json")).unwrap();
    assert_eq!(parsed(&frame), parsed("{\"device_id\":\"dev1\",\"telemetry_raw\":\"not json\"}"));
}

#[test]
fn raw_telemetry_replaces_ill_formed_bytes() {
    let frame = telemetry_frame(&publish("roaster/dev1/telemetry", &[b'a', 0xff, b'b'])).unwrap();
    let doc = parsed(&frame);
    assert_eq!(doc.get("telemetry_raw").unwrap().as_str(), Some("a\u{fffd}b"));
}

#[test]
fn autotune_is_forwarded_with_its_step() {
    let frame = telemetry_frame(&publish("roaster/dev1/autotune/status", b"{\"phase\":2}")).unwrap();
    assert_eq!(
        parsed(&frame),
        parsed("{\"device_id\":\"dev1\",\"autotune\":{\"type\":\"status\",\"data\":{\"phase\":2}}}")
    );
    let frame = telemetry_frame(&publish("roaster/dev1/autotune/results", b"oops")).unwrap();
    assert_eq!(
        parsed(&frame),
        parsed("{\"device_id\":\"dev1\",\"autotune_raw\":{\"type\":\"results\",\"data\":\"oops\"}}")
    );
}

#[test]
fn autotune_without_a_step_is_passed_over() {
    assert_eq!(telemetry_frame(&publish("roaster/dev1/autotune", b"{}")), None);
}

#[test]
fn other_events_are_passed_over_by_the_telemetry_bridge() {
    assert_eq!(telemetry_frame(&publish("roaster/dev1/status", b"{}")), None);
    assert_eq!(telemetry_frame(&publish("roaster/dev1/control/pid", b"{}")), None);
    assert_eq!(telemetry_frame(&publish("other/dev1/telemetry", b"{}")), None);
    assert_eq!(telemetry_frame(&publish("roaster/dev1", b"{}")), None);
    assert_eq!(telemetry_frame(&MqttEvent::Connected), None);
    assert_eq!(telemetry_frame(&MqttEvent::Disconnected), None);
    assert_eq!(telemetry_frame(&MqttEvent::PubAck(7)), None);
}

#[test]
fn debug_bridge_forwards_every_message() {
    let frame = debug_frame(&publish("roaster/dev1/status", b"{\"ip\":\"10.0.0.2\"}"));
    assert_eq!(
        parsed(&frame),
        parsed(
            "{\"mqtt\":{\"topic\":\"roaster/dev1/status\",\"payload\":{\"ip\":\"10.0.0.2\"},\
             \"direction\":\"incoming\",\"device_id\":\"dev1\"}}"
        )
    );
    let frame = debug_frame(&publish("elsewhere/x", b"plain"));
    assert_eq!(
        parsed(&frame),
        parsed(
            "{\"mqtt\":{\"topic\":\"elsewhere/x\",\"payload\":\"plain\",\
             \"direction\":\"incoming\",\"device_id\":null}}"
        )
    );
}

#[test]
fn debug_bridge_names_the_device_of_any_topic_under_the_root() {
    let of = |topic: &str| {
        parsed(&debug_frame(&publish(topic, b"1"))).get("mqtt").unwrap().get("device_id").cloned()
    };
    assert_eq!(of("roaster/dev9"), Some(serde_json::Value::from("dev9")));
    assert_eq!(of("roaster/"), Some(serde_json::Value::from("")));
    assert_eq!(of("roaster"), Some(serde_json::Value::Null));
    assert_eq!(of("roasterx/dev9"), Some(serde_json::Value::Null));
}

#[test]
fn debug_bridge_reports_the_connection() {
    assert_eq!(
        parsed(&debug_frame(&MqttEvent::Connected)),
        parsed(
            "{\"mqtt\":{\"topic\":\"system/connected\",\"payload\":\"MQTT connected\",\
             \"direction\":\"incoming\"}}"
        )
    );
    assert_eq!(
        parsed(&debug_frame(&MqttEvent::Disconnected)),
        parsed(
            "{\"mqtt\":{\"topic\":\"system/disconnected\",\"payload\":\"MQTT disconnected\",\
             \"direction\":\"incoming\"}}"
        )
    );
    assert_eq!(
        parsed(&debug_frame(&MqttEvent::PubAck(4711))),
        parsed(
            "{\"mqtt\":{\"topic\":\"system/puback\",\
             \"payload\":\"PubAck received for packet 4711\",\"direction\":\"incoming\"}}"
        )
    );
}

#[test]
fn ping_is_answered_with_pong() {
    assert_eq!(debug_reply("{\"type\":\"ping\"}"), Some("{\"type\":\"pong\"}".to_string()));
    assert_eq!(
        debug_reply(" { \"type\" : \"ping\", \"n\": 1 } "),
        Some("{\"type\":\"pong\"}".to_string())
    );
}

#[test]
fn other_frames_get_no_answer() {
    assert_eq!(debug_reply("{\"type\":\"pong\"}"), None);
    assert_eq!(debug_reply("{\"type\":1}"), None);
    assert_eq!(debug_reply("{\"kind\":\"ping\"}"), None);
    assert_eq!(debug_reply("\"ping\""), None);
    assert_eq!(debug_reply("ping"), None);
    assert_eq!(debug_reply(""), None);
}
