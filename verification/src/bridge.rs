//! The messages that a WebSocket bridge hands to its client.
//!
//! A bridge reads the event bus and forwards what concerns its client. The
//! functions here decide, for one event or one inbound frame, which text to
//! send, if any. They keep no state, so a bridge sends its texts in the order
//! in which it read the events.

use crate::event::{EventView, MqttEvent};
use crate::json::{entry_texts, json_member, json_object, json_parse, json_quote, json_string, Json};
use crate::text::{decimal, decode_lossy, push_decimal, split, split_str, str_eq, utf8_lossy, views};
use crate::topics::{parse_roaster_topic, parsed_topic, segment_at, topic_segment, ROOT, SEPARATOR};
use vstd::prelude::*;
use vstd::string::*;

verus! {

/// The document that stands for a payload in a message: the payload decoded,
/// or the payload as a string document when it is no JSON.
pub open spec fn payload_text(payload: Seq<u8>) -> Seq<char> {
    match json_parse(payload) {
        Some(doc) => doc,
        None => json_quote(utf8_lossy(payload)),
    }
}

/// The telemetry message for a client: the device and its decoded telemetry,
/// or the raw payload under `telemetry_raw` when it is no JSON.
pub open spec fn telemetry_message(device: Seq<char>, payload: Seq<u8>) -> Seq<char> {
    json_object(
        seq![
            ("device_id"@, json_quote(device)),
            (
                if json_parse(payload) is Some {
                    "telemetry"@
                } else {
                    "telemetry_raw"@
                },
                payload_text(payload),
            ),
        ],
    )
}

/// The auto-tune message for a client: the device, the step of the tuning run
/// and its decoded data, or the raw payload under `autotune_raw`.
pub open spec fn autotune_message(device: Seq<char>, step: Seq<char>, payload: Seq<u8>) -> Seq<
    char,
> {
    json_object(
        seq![
            ("device_id"@, json_quote(device)),
            (
                if json_parse(payload) is Some {
                    "autotune"@
                } else {
                    "autotune_raw"@
                },
                json_object(seq![("type"@, json_quote(step)), ("data"@, payload_text(payload))]),
            ),
        ],
    )
}

/// What the telemetry bridge sends for an event: a message for telemetry and
/// for auto-tune topics with a step, nothing for anything else.
pub open spec fn telemetry_frame_of(event: EventView) -> Option<Seq<char>> {
    match event {
        EventView::Publish { topic, payload } => match parsed_topic(topic) {
            Some((device, kind)) => if kind == "telemetry"@ {
                Some(telemetry_message(device, payload))
            } else if kind == "autotune"@ {
                match segment_at(topic, 3) {
                    Some(step) => Some(autotune_message(device, step, payload)),
                    None => None,
                }
            } else {
                None
            },
            None => None,
        },
        _ => None,
    }
}

/// The device that a topic under the root names: its second segment.
pub open spec fn debug_device(topic: Seq<char>) -> Option<Seq<char>> {
    let parts = split(topic, SEPARATOR);
    if parts.len() >= 2 && parts[0] == ROOT@ {
        Some(parts[1])
    } else {
        None
    }
}

/// The envelope of every message of the debug bridge.
pub open spec fn debug_envelope(fields: Seq<(Seq<char>, Seq<char>)>) -> Seq<char> {
    json_object(seq![("mqtt"@, json_object(fields))])
}

/// The message of the debug bridge about the connection itself.
pub open spec fn system_message(topic: Seq<char>, note: Seq<char>) -> Seq<char> {
    debug_envelope(
        seq![
            ("topic"@, json_quote(topic)),
            ("payload"@, json_quote(note)),
            ("direction"@, json_quote("incoming"@)),
        ],
    )
}

/// What the debug bridge sends for an event. Every event gets a message.
pub open spec fn debug_frame_of(event: EventView) -> Seq<char> {
    match event {
        EventView::Publish { topic, payload } => debug_envelope(
            seq![
                ("topic"@, json_quote(topic)),
                ("payload"@, payload_text(payload)),
                ("direction"@, json_quote("incoming"@)),
                (
                    "device_id"@,
                    match debug_device(topic) {
                        Some(device) => json_quote(device),
                        None => "null"@,
                    },
                ),
            ],
        ),
        EventView::Connected => system_message("system/connected"@, "MQTT connected"@),
        EventView::Disconnected => system_message("system/disconnected"@, "MQTT disconnected"@),
        EventView::PubAck(id) => system_message(
            "system/puback"@,
            "PubAck received for packet "@ + decimal(id as nat),
        ),
    }
}

/// Whether a text frame of the client is a keepalive ping: a JSON object
/// whose member `type` is the string `ping`.
pub open spec fn is_ping(text: Seq<char>) -> bool {
    match json_parse(vstd::utf8::encode_utf8(text)) {
        Some(doc) => match json_member(doc, "type"@) {
            Some(kind) => json_string(kind) == Some("ping"@),
            None => false,
        },
        None => false,
    }
}

/// The answer to a keepalive ping.
pub open spec fn pong_message() -> Seq<char> {
    json_object(seq![("type"@, json_quote("pong"@))])
}

fn entry(key: &str, value: Json) -> (r: (String, Json))
    ensures
        r.0@ == key@,
        r.1@ == value@,
{
    (String::from_str(key), value)
}

fn payload_document(payload: &[u8]) -> (r: (Json, bool))
    ensures
        r.0@ == payload_text(payload@),
        r.1 == (json_parse(payload@) is Some),
{
    match Json::parse(payload) {
        Some(doc) => (doc, true),
        None => {
            let raw = decode_lossy(payload);
            (Json::string(raw.as_str()), false)
        },
    }
}

fn object2(first: (String, Json), second: (String, Json)) -> (r: Json)
    ensures
        r@ == json_object(seq![(first.0@, first.1@), (second.0@, second.1@)]),
{
    let mut entries: Vec<(String, Json)> = Vec::new();
    entries.push(first);
    entries.push(second);
    proof {
        assert(entry_texts(entries@) == seq![(first.0@, first.1@), (second.0@, second.1@)]);
    }
    Json::object(entries)
}

fn object1(only: (String, Json)) -> (r: Json)
    ensures
        r@ == json_object(seq![(only.0@, only.1@)]),
{
    let mut entries: Vec<(String, Json)> = Vec::new();
    entries.push(only);
    proof {
        assert(entry_texts(entries@) == seq![(only.0@, only.1@)]);
    }
    Json::object(entries)
}

/// The text that the telemetry bridge sends to its client for `event`, if any.
pub fn telemetry_frame(event: &MqttEvent) -> (r: Option<String>)
    ensures
        match r {
            Some(text) => telemetry_frame_of(event@) == Some(text@),
            None => telemetry_frame_of(event@) is None,
        },
{
    match event {
        MqttEvent::Publish { topic, payload } => {
            match parse_roaster_topic(topic.as_str()) {
                Some((device, kind)) => {
                    if str_eq(kind.as_str(), "telemetry") {
                        let (doc, decoded) = payload_document(payload.as_slice());
                        let key = if decoded {
                            "telemetry"
                        } else {
                            "telemetry_raw"
                        };
                        let message = object2(
                            entry("device_id", Json::string(device.as_str())),
                            entry(key, doc),
                        );
                        Some(message.text())
                    } else if str_eq(kind.as_str(), "autotune") {
                        match topic_segment(topic.as_str(), 3) {
                            Some(step) => {
                                let (doc, decoded) = payload_document(payload.as_slice());
                                let key = if decoded {
                                    "autotune"
                                } else {
                                    "autotune_raw"
                                };
                                let inner = object2(
                                    entry("type", Json::string(step.as_str())),
                                    entry("data", doc),
                                );
                                let message = object2(
                                    entry("device_id", Json::string(device.as_str())),
                                    entry(key, inner),
                                );
                                Some(message.text())
                            },
                            None => None,
                        }
                    } else {
                        None
                    }
                },
                None => None,
            }
        },
        _ => None,
    }
}

fn system_frame(topic: &str, note: &str) -> (r: String)
    ensures
        r@ == system_message(topic@, note@),
{
    let mut fields: Vec<(String, Json)> = Vec::new();
    fields.push(entry("topic", Json::string(topic)));
    fields.push(entry("payload", Json::string(note)));
    fields.push(entry("direction", Json::string("incoming")));
    proof {
        assert(entry_texts(fields@) == seq![
            ("topic"@, json_quote(topic@)),
            ("payload"@, json_quote(note@)),
            ("direction"@, json_quote("incoming"@)),
        ]);
    }
    let message = object1(entry("mqtt", Json::object(fields)));
    message.text()
}

fn device_of(topic: &str) -> (r: Json)
    ensures
        r@ == match debug_device(topic@) {
            Some(device) => json_quote(device),
            None => "null"@,
        },
{
    let parts = split_str(topic, SEPARATOR);
    assert(views(parts@).len() == parts@.len());
    if parts.len() >= 2 {
        assert(views(parts@)[0] == parts@[0]@);
        assert(views(parts@)[1] == parts@[1]@);
        if str_eq(parts[0].as_str(), ROOT) {
            return Json::string(parts[1].as_str());
        }
    }
    Json::null()
}

/// The text that the debug bridge sends to its client for `event`.
pub fn debug_frame(event: &MqttEvent) -> (r: String)
    ensures
        r@ == debug_frame_of(event@),
{
    match event {
        MqttEvent::Publish { topic, payload } => {
            let (doc, _) = payload_document(payload.as_slice());
            let mut fields: Vec<(String, Json)> = Vec::new();
            fields.push(entry("topic", Json::string(topic.as_str())));
            fields.push(entry("payload", doc));
            fields.push(entry("direction", Json::string("incoming")));
            fields.push(entry("device_id", device_of(topic.as_str())));
            proof {
                assert(entry_texts(fields@) == seq![
                    ("topic"@, json_quote(topic@)),
                    ("payload"@, payload_text(payload@)),
                    ("direction"@, json_quote("incoming"@)),
                    (
                        "device_id"@,
                        match debug_device(topic@) {
                            Some(device) => json_quote(device),
                            None => "null"@,
                        },
                    ),
                ]);
            }
            let message = object1(entry("mqtt", Json::object(fields)));
            message.text()
        },
        MqttEvent::Connected => system_frame("system/connected", "MQTT connected"),
        MqttEvent::Disconnected => system_frame("system/disconnected", "MQTT disconnected"),
        MqttEvent::PubAck(id) => {
            let mut note = String::from_str("PubAck received for packet ");
            push_decimal(&mut note, *id as u64);
            system_frame("system/puback", note.as_str())
        },
    }
}

/// The text with which the debug bridge answers a text frame of its client,
/// if it answers: a pong for a keepalive ping, nothing for any other frame.
pub fn debug_reply(text: &str) -> (r: Option<String>)
    ensures
        match r {
            Some(answer) => is_ping(text@) && answer@ == pong_message(),
            None => !is_ping(text@),
        },
{
    match Json::parse(text.as_bytes()) {
        Some(doc) => match doc.get("type") {
            Some(kind) => match kind.as_str() {
                Some(name) => {
                    if str_eq(name.as_str(), "ping") {
                        let pong = object1(entry("type", Json::string("pong")));
                        Some(pong.text())
                    } else {
                        None
                    }
                },
                None => None,
            },
            None => None,
        },
        None => None,
    }
}

} // verus!
