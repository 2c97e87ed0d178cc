//! What the connection manager tells the rest of the gateway.

use vstd::prelude::*;

verus! {

/// A normalized event of the broker connection.
#[derive(Debug, Clone, PartialEq, Eq)]
pub enum MqttEvent {
    /// The broker acknowledged the connection.
    Connected,
    /// The connection was lost or given up.
    Disconnected,
    /// A message arrived.
    Publish { topic: String, payload: Vec<u8> },
    /// The broker acknowledged the publish with this packet id.
    PubAck(u16),
}

/// An event over mathematical values.
pub enum EventView {
    Connected,
    Disconnected,
    Publish { topic: Seq<char>, payload: Seq<u8> },
    PubAck(u16),
}

impl View for MqttEvent {
    type V = EventView;

    open spec fn view(&self) -> EventView {
        match self {
            MqttEvent::Connected => EventView::Connected,
            MqttEvent::Disconnected => EventView::Disconnected,
            MqttEvent::Publish { topic, payload } => EventView::Publish {
                topic: topic@,
                payload: payload@,
            },
            MqttEvent::PubAck(id) => EventView::PubAck(*id),
        }
    }
}

} // verus!
