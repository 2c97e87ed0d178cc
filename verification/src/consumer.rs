//! The consumer of the event bus that keeps the caches and decides what is
//! written to storage.
//!
//! For one event it updates the caches and the registry and lists, in order,
//! what has to be done outside: the counters to move and the rows to insert.
//! A payload that is no JSON changes nothing and asks for no row.

use crate::cache::{known, merged_info, DeviceCache, DeviceInfoView, DeviceRegistry};
use crate::event::{EventView, MqttEvent};
use crate::json::{json_member, json_parse, Json};
use crate::session::{active_index, active_session, SessionRecord};
use crate::text::{decode_lossy, str_eq, utf8_lossy};
use crate::topics::{parse_roaster_topic, parsed_topic, segment_at, topic_segment};
use vstd::prelude::*;
use vstd::string::*;

verus! {

/// A row of the telemetry log of a session. Each measurement is the member of
/// the decoded payload under its fixed name, where the payload has one.
pub struct SessionRow {
    pub session_id: String,
    /// When the payload arrived, in seconds since the epoch.
    pub timestamp: u64,
    pub bean_temp: Option<Json>,
    pub env_temp: Option<Json>,
    pub rate_of_rise: Option<Json>,
    pub heater_pwm: Option<Json>,
    pub fan_pwm: Option<Json>,
    pub setpoint: Option<Json>,
}

/// A session row over mathematical values.
pub struct SessionRowView {
    pub session_id: Seq<char>,
    pub timestamp: u64,
    pub bean_temp: Option<Seq<char>>,
    pub env_temp: Option<Seq<char>>,
    pub rate_of_rise: Option<Seq<char>>,
    pub heater_pwm: Option<Seq<char>>,
    pub fan_pwm: Option<Seq<char>>,
    pub setpoint: Option<Seq<char>>,
}

/// The compact text of a document that may be absent.
pub open spec fn doc_of(j: Option<Json>) -> Option<Seq<char>> {
    match j {
        Some(doc) => Some(doc@),
        None => None,
    }
}

impl View for SessionRow {
    type V = SessionRowView;

    open spec fn view(&self) -> SessionRowView {
        SessionRowView {
            session_id: self.session_id@,
            timestamp: self.timestamp,
            bean_temp: doc_of(self.bean_temp),
            env_temp: doc_of(self.env_temp),
            rate_of_rise: doc_of(self.rate_of_rise),
            heater_pwm: doc_of(self.heater_pwm),
            fan_pwm: doc_of(self.fan_pwm),
            setpoint: doc_of(self.setpoint),
        }
    }
}

/// What is to be done outside for an event, in the order given.
pub enum Effect {
    /// Mark the broker connection as up.
    LinkUp,
    /// Mark the broker connection as down.
    LinkDown,
    /// Count one received message.
    Received,
    /// Note when telemetry of the device was last seen.
    TelemetrySeen { device_id: String, at: u64 },
    /// Note when a status of the device was last seen.
    StatusSeen { device_id: String, at: u64 },
    /// Append a row to the telemetry log of the device.
    StoreTelemetry { device_id: String, at: u64, payload: String },
    /// Append a row to the telemetry log of the active session.
    StoreSessionTelemetry(SessionRow),
    /// Append a row to the log of tuning progress.
    StoreAutotuneStatus { device_id: String, at: u64, payload: String },
    /// Append a row to the log of tuning results.
    StoreAutotuneResults { device_id: String, at: u64, payload: String },
}

/// An effect over mathematical values.
pub enum EffectView {
    LinkUp,
    LinkDown,
    Received,
    TelemetrySeen { device_id: Seq<char>, at: u64 },
    StatusSeen { device_id: Seq<char>, at: u64 },
    StoreTelemetry { device_id: Seq<char>, at: u64, payload: Seq<char> },
    StoreSessionTelemetry(SessionRowView),
    StoreAutotuneStatus { device_id: Seq<char>, at: u64, payload: Seq<char> },
    StoreAutotuneResults { device_id: Seq<char>, at: u64, payload: Seq<char> },
}

impl View for Effect {
    type V = EffectView;

    open spec fn view(&self) -> EffectView {
        match self {
            Effect::LinkUp => EffectView::LinkUp,
            Effect::LinkDown => EffectView::LinkDown,
            Effect::Received => EffectView::Received,
            Effect::TelemetrySeen { device_id, at } => EffectView::TelemetrySeen {
                device_id: device_id@,
                at: *at,
            },
            Effect::StatusSeen { device_id, at } => EffectView::StatusSeen {
                device_id: device_id@,
                at: *at,
            },
            Effect::StoreTelemetry { device_id, at, payload } => EffectView::StoreTelemetry {
                device_id: device_id@,
                at: *at,
                payload: payload@,
            },
            Effect::StoreSessionTelemetry(row) => EffectView::StoreSessionTelemetry(row@),
            Effect::StoreAutotuneStatus { device_id, at, payload } => {
                EffectView::StoreAutotuneStatus { device_id: device_id@, at: *at, payload: payload@ }
            },
            Effect::StoreAutotuneResults { device_id, at, payload } => {
                EffectView::StoreAutotuneResults {
                    device_id: device_id@,
                    at: *at,
                    payload: payload@,
                }
            },
        }
    }
}

/// The views of a list of effects.
pub open spec fn effect_views(effects: Seq<Effect>) -> Seq<EffectView> {
    Seq::new(effects.len(), |i: int| effects[i]@)
}

/// The caches and the registry over mathematical values.
pub struct GatewayView {
    pub telemetry: Map<Seq<char>, (Seq<char>, u64)>,
    pub autotune_status: Map<Seq<char>, (Seq<char>, u64)>,
    pub autotune_results: Map<Seq<char>, (Seq<char>, u64)>,
    pub devices: Map<Seq<char>, DeviceInfoView>,
}

/// The session row for the decoded payload `doc` that arrived at `now`.
pub open spec fn session_row(session_id: Seq<char>, now: u64, doc: Seq<char>) -> SessionRowView {
    SessionRowView {
        session_id,
        timestamp: now,
        bean_temp: json_member(doc, "beanTemp"@),
        env_temp: json_member(doc, "envTemp"@),
        rate_of_rise: json_member(doc, "rateOfRise"@),
        heater_pwm: json_member(doc, "heaterPWM"@),
        fan_pwm: json_member(doc, "fanPWM"@),
        setpoint: json_member(doc, "setpoint"@),
    }
}

/// What telemetry of `device` asks for: the counters, the row of the device
/// log, and, when the device has an active session, the row of that session.
pub open spec fn telemetry_effects(
    device: Seq<char>,
    payload: Seq<u8>,
    doc: Seq<char>,
    now: u64,
    sessions: Seq<SessionRecord>,
) -> Seq<EffectView> {
    let always = seq![
        EffectView::Received,
        EffectView::TelemetrySeen { device_id: device, at: now },
        EffectView::StoreTelemetry { device_id: device, at: now, payload: utf8_lossy(payload) },
    ];
    match active_index(sessions, device) {
        Some(i) => always.push(
            EffectView::StoreSessionTelemetry(session_row(sessions[i].id@, now, doc)),
        ),
        None => always,
    }
}

/// The state after a published message and what it asks for.
pub open spec fn consume_publish(
    state: GatewayView,
    topic: Seq<char>,
    payload: Seq<u8>,
    now: u64,
    sessions: Seq<SessionRecord>,
) -> (GatewayView, Seq<EffectView>) {
    let ignored = (state, seq![EffectView::Received]);
    match (parsed_topic(topic), json_parse(payload)) {
        (Some((device, kind)), Some(doc)) => {
            if kind == "telemetry"@ {
                (
                    GatewayView { telemetry: state.telemetry.insert(device, (doc, now)), ..state },
                    telemetry_effects(device, payload, doc, now, sessions),
                )
            } else if kind == "status"@ {
                (
                    GatewayView {
                        devices: state.devices.insert(
                            device,
                            merged_info(known(state.devices, device), device, now, doc),
                        ),
                        ..state
                    },
                    seq![EffectView::Received, EffectView::StatusSeen { device_id: device, at: now }],
                )
            } else if kind == "autotune"@ {
                if segment_at(topic, 3) == Some("status"@) {
                    (
                        GatewayView {
                            autotune_status: state.autotune_status.insert(device, (doc, now)),
                            ..state
                        },
                        seq![
                            EffectView::Received,
                            EffectView::StoreAutotuneStatus {
                                device_id: device,
                                at: now,
                                payload: utf8_lossy(payload),
                            },
                        ],
                    )
                } else if segment_at(topic, 3) == Some("results"@) {
                    (
                        GatewayView {
                            autotune_results: state.autotune_results.insert(device, (doc, now)),
                            ..state
                        },
                        seq![
                            EffectView::Received,
                            EffectView::StoreAutotuneResults {
                                device_id: device,
                                at: now,
                                payload: utf8_lossy(payload),
                            },
                        ],
                    )
                } else {
                    ignored
                }
            } else {
                ignored
            }
        },
        _ => ignored,
    }
}

/// The state after an event that arrived at `now` and what the event asks for.
pub open spec fn consume(
    state: GatewayView,
    event: EventView,
    now: u64,
    sessions: Seq<SessionRecord>,
) -> (GatewayView, Seq<EffectView>) {
    match event {
        EventView::Connected => (state, seq![EffectView::LinkUp]),
        EventView::Disconnected => (state, seq![EffectView::LinkDown]),
        EventView::PubAck(_) => (state, Seq::<EffectView>::empty()),
        EventView::Publish { topic, payload } => consume_publish(
            state,
            topic,
            payload,
            now,
            sessions,
        ),
    }
}

/// How many rows of the device telemetry log a list of effects asks for.
pub open spec fn device_rows(effects: Seq<EffectView>) -> nat
    decreases effects.len(),
{
    if effects.len() == 0 {
        0
    } else {
        device_rows(effects.drop_last()) + if effects.last() is StoreTelemetry {
            1nat
        } else {
            0nat
        }
    }
}

/// How many rows of a session telemetry log a list of effects asks for.
pub open spec fn session_rows(effects: Seq<EffectView>) -> nat
    decreases effects.len(),
{
    if effects.len() == 0 {
        0
    } else {
        session_rows(effects.drop_last()) + if effects.last() is StoreSessionTelemetry {
            1nat
        } else {
            0nat
        }
    }
}

/// A published payload that is no JSON leaves every cache and the registry as
/// they were and asks for no row: the message is counted and dropped.
pub proof fn lemma_undecodable_payload_is_dropped(
    state: GatewayView,
    topic: Seq<char>,
    payload: Seq<u8>,
    now: u64,
    sessions: Seq<SessionRecord>,
)
    requires
        json_parse(payload) is None,
    ensures
        consume(state, EventView::Publish { topic, payload }, now, sessions) == (
            state,
            seq![EffectView::Received],
        ),
{
}

/// Telemetry of a device without an active session asks for exactly one row,
/// that of the device log. With an active session it asks for exactly two:
/// that of the device log and one of the session.
pub proof fn lemma_rows_per_telemetry(
    state: GatewayView,
    device: Seq<char>,
    topic: Seq<char>,
    payload: Seq<u8>,
    now: u64,
    sessions: Seq<SessionRecord>,
)
    requires
        parsed_topic(topic) == Some((device, "telemetry"@)),
        json_parse(payload) is Some,
    ensures
        ({
            let effects = consume(state, EventView::Publish { topic, payload }, now, sessions).1;
            &&& device_rows(effects) == 1
            &&& session_rows(effects) == if active_index(sessions, device) is Some {
                1nat
            } else {
                0nat
            }
        }),
{
    let doc = json_parse(payload)->0;
    let always = seq![
        EffectView::Received,
        EffectView::TelemetrySeen { device_id: device, at: now },
        EffectView::StoreTelemetry { device_id: device, at: now, payload: utf8_lossy(payload) },
    ];
    reveal_with_fuel(device_rows, 5);
    reveal_with_fuel(session_rows, 5);
    assert(always.drop_last().drop_last().drop_last().len() == 0);
    assert(device_rows(always) == 1);
    assert(session_rows(always) == 0);
    match active_index(sessions, device) {
        Some(i) => {
            let row = EffectView::StoreSessionTelemetry(session_row(sessions[i].id@, now, doc));
            assert(always.push(row).drop_last() == always);
        },
        None => {},
    }
}

/// The caches of the gateway and its registry of devices.
pub struct Gateway {
    pub telemetry: DeviceCache,
    pub autotune_status: DeviceCache,
    pub autotune_results: DeviceCache,
    pub devices: DeviceRegistry,
}

impl View for Gateway {
    type V = GatewayView;

    open spec fn view(&self) -> GatewayView {
        GatewayView {
            telemetry: self.telemetry@,
            autotune_status: self.autotune_status@,
            autotune_results: self.autotune_results@,
            devices: self.devices@,
        }
    }
}

fn emit(effects: &mut Vec<Effect>, effect: Effect)
    ensures
        effect_views(final(effects)@) == effect_views(old(effects)@).push(effect@),
{
    effects.push(effect);
    assert(effect_views(effects@) =~= effect_views(old(effects)@).push(effect@));
}

fn stored_text(payload: &Vec<u8>) -> (r: String)
    ensures
        r@ == utf8_lossy(payload@),
{
    decode_lossy(payload.as_slice())
}

fn row_for(session: &SessionRecord, now: u64, doc: &Json) -> (r: SessionRow)
    ensures
        r@ == session_row(session.id@, now, doc@),
{
    SessionRow {
        session_id: session.id.clone(),
        timestamp: now,
        bean_temp: doc.get("beanTemp"),
        env_temp: doc.get("envTemp"),
        rate_of_rise: doc.get("rateOfRise"),
        heater_pwm: doc.get("heaterPWM"),
        fan_pwm: doc.get("fanPWM"),
        setpoint: doc.get("setpoint"),
    }
}

impl Gateway {
    /// Every cache and the registry are well formed.
    pub open spec fn wf(&self) -> bool {
        &&& self.telemetry.wf()
        &&& self.autotune_status.wf()
        &&& self.autotune_results.wf()
        &&& self.devices.wf()
    }

    /// A gateway that has heard of no device.
    pub fn new() -> (r: Self)
        ensures
            r.wf(),
            r@.telemetry == Map::<Seq<char>, (Seq<char>, u64)>::empty(),
            r@.autotune_status == Map::<Seq<char>, (Seq<char>, u64)>::empty(),
            r@.autotune_results == Map::<Seq<char>, (Seq<char>, u64)>::empty(),
            r@.devices == Map::<Seq<char>, DeviceInfoView>::empty(),
    {
        Gateway {
            telemetry: DeviceCache::new(),
            autotune_status: DeviceCache::new(),
            autotune_results: DeviceCache::new(),
            devices: DeviceRegistry::new(),
        }
    }

    /// The device whose sessions decide where `event` is stored: the device of
    /// a telemetry message. For any other event no session is looked at.
    pub fn session_device(event: &MqttEvent) -> (r: Option<String>)
        ensures
            match r {
                Some(device) => event@ matches EventView::Publish { topic, .. } && parsed_topic(
                    topic,
                ) == Some((device@, "telemetry"@)),
                None => !(event@ matches EventView::Publish { topic, .. } && parsed_topic(topic)
                    matches Some((_, kind)) && kind == "telemetry"@),
            },
    {
        match event {
            MqttEvent::Publish { topic, payload: _ } => match parse_roaster_topic(topic.as_str()) {
                Some((device, kind)) => {
                    if str_eq(kind.as_str(), "telemetry") {
                        Some(device)
                    } else {
                        None
                    }
                },
                None => None,
            },
            _ => None,
        }
    }

    /// Takes in `event`, which arrived at `now`: brings the caches and the
    /// registry up to date and returns what is to be done outside.
    ///
    /// `sessions` are the roast sessions among which the active session of the
    /// device is looked for; sessions of other devices are passed over.
    pub fn apply(&mut self, event: &MqttEvent, now: u64, sessions: &Vec<SessionRecord>) -> (r: Vec<
        Effect,
    >)
        requires
            old(self).wf(),
        ensures
            final(self).wf(),
            (final(self)@, effect_views(r@)) == consume(old(self)@, event@, now, sessions@),
    {
        let mut effects: Vec<Effect> = Vec::new();
        match event {
            MqttEvent::Connected => {
                emit(&mut effects, Effect::LinkUp);
                assert(effect_views(effects@) == seq![EffectView::LinkUp]);
            },
            MqttEvent::Disconnected => {
                emit(&mut effects, Effect::LinkDown);
                assert(effect_views(effects@) == seq![EffectView::LinkDown]);
            },
            MqttEvent::PubAck(_) => {
                assert(effect_views(effects@) == Seq::<EffectView>::empty());
            },
            MqttEvent::Publish { topic, payload } => {
                emit(&mut effects, Effect::Received);
                assert(effect_views(effects@) == seq![EffectView::Received]);
                match parse_roaster_topic(topic.as_str()) {
                    Some((device, kind)) => {
                        self.publish(&mut effects, topic, device, kind, payload, now, sessions);
                    },
                    None => {},
                }
            },
        }
        effects
    }

    fn publish(
        &mut self,
        effects: &mut Vec<Effect>,
        topic: &String,
        device: String,
        kind: String,
        payload: &Vec<u8>,
        now: u64,
        sessions: &Vec<SessionRecord>,
    )
        requires
            old(self).wf(),
            effect_views(old(effects)@) == seq![EffectView::Received],
            parsed_topic(topic@) == Some((device@, kind@)),
        ensures
            final(self).wf(),
            (final(self)@, effect_views(final(effects)@)) == consume_publish(
                old(self)@,
                topic@,
                payload@,
                now,
                sessions@,
            ),
    {
        let doc = match Json::parse(payload.as_slice()) {
            Some(doc) => doc,
            None => {
                return ;
            },
        };
        let ghost before = effect_views(effects@);
        if str_eq(kind.as_str(), "telemetry") {
            let found = active_session(sessions, device.as_str());
            let row = match found {
                Some(i) => Some(row_for(&sessions[i], now, &doc)),
                None => None,
            };
            emit(effects, Effect::TelemetrySeen { device_id: device.clone(), at: now });
            emit(
                effects,
                Effect::StoreTelemetry {
                    device_id: device.clone(),
                    at: now,
                    payload: stored_text(payload),
                },
            );
            match row {
                Some(row) => {
                    emit(effects, Effect::StoreSessionTelemetry(row));
                },
                None => {},
            }
            self.telemetry.insert(device.as_str(), doc, now);
            assert(effect_views(effects@) == telemetry_effects(
                device@,
                payload@,
                doc@,
                now,
                sessions@,
            ));
        } else if str_eq(kind.as_str(), "status") {
            emit(effects, Effect::StatusSeen { device_id: device.clone(), at: now });
            self.devices.record_status(device.as_str(), now, doc);
            assert(effect_views(effects@) == seq![
                EffectView::Received,
                EffectView::StatusSeen { device_id: device@, at: now },
            ]);
        } else if str_eq(kind.as_str(), "autotune") {
            match topic_segment(topic.as_str(), 3) {
                Some(step) => {
                    if str_eq(step.as_str(), "status") {
                        emit(
                effects,
                            Effect::StoreAutotuneStatus {
                                device_id: device.clone(),
                                at: now,
                                payload: stored_text(payload),
                            },
                        );
                        self.autotune_status.insert(device.as_str(), doc, now);
                        assert(effect_views(effects@) == seq![
                            EffectView::Received,
                            EffectView::StoreAutotuneStatus {
                                device_id: device@,
                                at: now,
                                payload: utf8_lossy(payload@),
                            },
                        ]);
                    } else if str_eq(step.as_str(), "results") {
                        emit(
                effects,
                            Effect::StoreAutotuneResults {
                                device_id: device.clone(),
                                at: now,
                                payload: stored_text(payload),
                            },
                        );
                        self.autotune_results.insert(device.as_str(), doc, now);
                        assert(effect_views(effects@) == seq![
                            EffectView::Received,
                            EffectView::StoreAutotuneResults {
                                device_id: device@,
                                at: now,
                                payload: utf8_lossy(payload@),
                            },
                        ]);
                    }
                },
                None => {},
            }
        }
    }
}

} // verus!
