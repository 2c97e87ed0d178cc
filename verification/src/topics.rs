//! The topic layout shared with the roaster firmware.
//!
//! Every topic starts with [`ROOT`], followed by the device id and the kind of
//! message: `roaster/{device}/telemetry`, `roaster/{device}/status`,
//! `roaster/{device}/control/{setting}` and `roaster/{device}/autotune/{step}`.

use crate::text::{lemma_split_append_segment, lemma_split_plain, split, split_str, str_eq, views};
use vstd::prelude::*;
use vstd::string::*;

verus! {

/// First segment of every topic.
pub const ROOT: &'static str = "roaster";

/// The separator between the segments of a topic.
pub const SEPARATOR: char = '/';

/// `roaster/{device}/{kind}`.
pub open spec fn device_topic(device: Seq<char>, kind: Seq<char>) -> Seq<char> {
    ROOT@ + seq![SEPARATOR] + device + seq![SEPARATOR] + kind
}

/// `roaster/{device}/{kind}/{leaf}`.
pub open spec fn device_subtopic(device: Seq<char>, kind: Seq<char>, leaf: Seq<char>) -> Seq<
    char,
> {
    device_topic(device, kind) + seq![SEPARATOR] + leaf
}

/// The device id and the kind of message that a topic names: its second and
/// third segment, when it has at least three and the first is [`ROOT`].
pub open spec fn parsed_topic(topic: Seq<char>) -> Option<(Seq<char>, Seq<char>)> {
    let parts = split(topic, SEPARATOR);
    if parts.len() >= 3 && parts[0] == ROOT@ {
        Some((parts[1], parts[2]))
    } else {
        None
    }
}

/// The segment of a topic at `index`, counted from zero, when there is one.
pub open spec fn segment_at(topic: Seq<char>, index: int) -> Option<Seq<char>> {
    let parts = split(topic, SEPARATOR);
    if 0 <= index < parts.len() {
        Some(parts[index])
    } else {
        None
    }
}

fn scoped(device_id: &str, kind: &str) -> (r: String)
    ensures
        r@ == device_topic(device_id@, kind@),
{
    let mut out = String::from_str(ROOT);
    out.push(SEPARATOR);
    out.append(device_id);
    out.push(SEPARATOR);
    out.append(kind);
    proof {
        assert(out@ == ROOT@ + seq![SEPARATOR] + device_id@ + seq![SEPARATOR] + kind@);
    }
    out
}

fn nested(device_id: &str, kind: &str, leaf: &str) -> (r: String)
    ensures
        r@ == device_subtopic(device_id@, kind@, leaf@),
{
    let mut out = scoped(device_id, kind);
    out.push(SEPARATOR);
    out.append(leaf);
    proof {
        assert(out@ == device_topic(device_id@, kind@) + seq![SEPARATOR] + leaf@);
    }
    out
}

/// Topic on which a device reports its measurements.
pub fn telemetry_topic(device_id: &str) -> (r: String)
    ensures
        r@ == device_topic(device_id@, "telemetry"@),
{
    scoped(device_id, "telemetry")
}

/// Topic on which a device reports that it is online.
pub fn status_topic(device_id: &str) -> (r: String)
    ensures
        r@ == device_topic(device_id@, "status"@),
{
    scoped(device_id, "status")
}

/// Parent of the topics on which a device takes commands.
pub fn control_root(device_id: &str) -> (r: String)
    ensures
        r@ == device_topic(device_id@, "control"@),
{
    scoped(device_id, "control")
}

/// Topic that sets the target temperature.
pub fn control_setpoint(device_id: &str) -> (r: String)
    ensures
        r@ == device_subtopic(device_id@, "control"@, "setpoint"@),
{
    nested(device_id, "control", "setpoint")
}

/// Topic that sets the fan duty.
pub fn control_fan_pwm(device_id: &str) -> (r: String)
    ensures
        r@ == device_subtopic(device_id@, "control"@, "fan_pwm"@),
{
    nested(device_id, "control", "fan_pwm")
}

/// Topic that sets the heater duty.
pub fn control_heater_pwm(device_id: &str) -> (r: String)
    ensures
        r@ == device_subtopic(device_id@, "control"@, "heater_pwm"@),
{
    nested(device_id, "control", "heater_pwm")
}

/// Topic that switches between automatic and manual control.
pub fn control_mode(device_id: &str) -> (r: String)
    ensures
        r@ == device_subtopic(device_id@, "control"@, "mode"@),
{
    nested(device_id, "control", "mode")
}

/// Topic that enables or disables the heater.
pub fn control_heater_enable(device_id: &str) -> (r: String)
    ensures
        r@ == device_subtopic(device_id@, "control"@, "heater_enable"@),
{
    nested(device_id, "control", "heater_enable")
}

/// Topic that sets the gains of the temperature controller.
pub fn control_pid(device_id: &str) -> (r: String)
    ensures
        r@ == device_subtopic(device_id@, "control"@, "pid"@),
{
    nested(device_id, "control", "pid")
}

/// Topic that stops the roaster at once.
pub fn control_emergency_stop(device_id: &str) -> (r: String)
    ensures
        r@ == device_subtopic(device_id@, "control"@, "emergency_stop"@),
{
    nested(device_id, "control", "emergency_stop")
}

/// Topic on which a device reports the progress of a tuning run.
pub fn autotune_status(device_id: &str) -> (r: String)
    ensures
        r@ == device_subtopic(device_id@, "autotune"@, "status"@),
{
    nested(device_id, "autotune", "status")
}

/// Topic that starts a tuning run.
pub fn autotune_start(device_id: &str) -> (r: String)
    ensures
        r@ == device_subtopic(device_id@, "autotune"@, "start"@),
{
    nested(device_id, "autotune", "start")
}

/// Topic that stops a tuning run.
pub fn autotune_stop(device_id: &str) -> (r: String)
    ensures
        r@ == device_subtopic(device_id@, "autotune"@, "stop"@),
{
    nested(device_id, "autotune", "stop")
}

/// Topic that applies the gains a tuning run found.
pub fn autotune_apply(device_id: &str) -> (r: String)
    ensures
        r@ == device_subtopic(device_id@, "autotune"@, "apply"@),
{
    nested(device_id, "autotune", "apply")
}

/// Topic on which a device reports the gains a tuning run found.
pub fn autotune_results(device_id: &str) -> (r: String)
    ensures
        r@ == device_subtopic(device_id@, "autotune"@, "results"@),
{
    nested(device_id, "autotune", "results")
}

/// Filter that matches the telemetry of every device.
pub fn telemetry_wildcard_all() -> (r: &'static str)
    ensures
        r@ == "roaster/+/telemetry"@,
{
    "roaster/+/telemetry"
}

/// Filter that matches the status of every device.
pub fn status_wildcard_all() -> (r: &'static str)
    ensures
        r@ == "roaster/+/status"@,
{
    "roaster/+/status"
}

/// Filter that matches every command sent to one device.
pub fn control_wildcard(device_id: &str) -> (r: String)
    ensures
        r@ == device_subtopic(device_id@, "control"@, "#"@),
{
    nested(device_id, "control", "#")
}

/// Filter that matches every tuning message of every device.
pub fn autotune_wildcard_all() -> (r: &'static str)
    ensures
        r@ == "roaster/+/autotune/#"@,
{
    "roaster/+/autotune/#"
}

/// Filter that matches every topic under [`ROOT`].
pub fn debug_wildcard_all() -> (r: &'static str)
    ensures
        r@ == "roaster/#"@,
{
    "roaster/#"
}

/// Reads the device id and the kind of message out of a topic.
///
/// A topic of any other shape than `roaster/{device}/{kind}[/...]` yields `None`.
pub fn parse_roaster_topic(topic: &str) -> (r: Option<(String, String)>)
    ensures
        match r {
            Some((device, kind)) => parsed_topic(topic@) == Some((device@, kind@)),
            None => parsed_topic(topic@) is None,
        },
{
    let parts = split_str(topic, SEPARATOR);
    assert(views(parts@).len() == parts@.len());
    if parts.len() < 3 {
        return None;
    }
    assert(views(parts@)[0] == parts@[0]@);
    assert(views(parts@)[1] == parts@[1]@);
    assert(views(parts@)[2] == parts@[2]@);
    if !str_eq(parts[0].as_str(), ROOT) {
        return None;
    }
    Some((parts[1].clone(), parts[2].clone()))
}

/// The segment of a topic at `index`, counted from zero.
pub fn topic_segment(topic: &str, index: usize) -> (r: Option<String>)
    ensures
        match r {
            Some(segment) => segment_at(topic@, index as int) == Some(segment@),
            None => segment_at(topic@, index as int) is None,
        },
{
    let parts = split_str(topic, SEPARATOR);
    assert(views(parts@).len() == parts@.len());
    if index < parts.len() {
        assert(views(parts@)[index as int] == parts@[index as int]@);
        Some(parts[index].clone())
    } else {
        None
    }
}

/// [`ROOT`] holds no separator.
pub proof fn lemma_root_plain()
    ensures
        !ROOT@.contains(SEPARATOR),
{
    reveal_strlit("roaster");
    if ROOT@.contains(SEPARATOR) {
        let k = choose|k: int| 0 <= k < ROOT@.len() && ROOT@[k] == SEPARATOR;
        assert(ROOT@[k] != SEPARATOR);
    }
}

/// A device-scoped topic splits into the root, the device id and the kind.
pub proof fn lemma_device_topic_segments(device: Seq<char>, kind: Seq<char>)
    requires
        !device.contains(SEPARATOR),
        !kind.contains(SEPARATOR),
    ensures
        split(device_topic(device, kind), SEPARATOR) == seq![ROOT@, device, kind],
{
    lemma_root_plain();
    lemma_split_plain(ROOT@, SEPARATOR);
    lemma_split_append_segment(ROOT@, device, SEPARATOR);
    lemma_split_append_segment(ROOT@ + seq![SEPARATOR] + device, kind, SEPARATOR);
    assert(seq![ROOT@].push(device).push(kind) == seq![ROOT@, device, kind]);
}

/// Parsing a device-scoped topic gives back the device id and the kind it was
/// built from, whenever neither holds a separator.
pub proof fn lemma_parse_device_topic(device: Seq<char>, kind: Seq<char>)
    requires
        !device.contains(SEPARATOR),
        !kind.contains(SEPARATOR),
    ensures
        parsed_topic(device_topic(device, kind)) == Some((device, kind)),
{
    lemma_device_topic_segments(device, kind);
}

/// Parsing a nested topic gives back the device id and the kind it was built
/// from, and its fourth segment is the leaf.
pub proof fn lemma_parse_device_subtopic(device: Seq<char>, kind: Seq<char>, leaf: Seq<char>)
    requires
        !device.contains(SEPARATOR),
        !kind.contains(SEPARATOR),
        !leaf.contains(SEPARATOR),
    ensures
        parsed_topic(device_subtopic(device, kind, leaf)) == Some((device, kind)),
        segment_at(device_subtopic(device, kind, leaf), 3) == Some(leaf),
{
    lemma_device_topic_segments(device, kind);
    lemma_split_append_segment(device_topic(device, kind), leaf, SEPARATOR);
    assert(seq![ROOT@, device, kind].push(leaf) == seq![ROOT@, device, kind, leaf]);
}

} // verus!
