use rustroast::topics::{
    autotune_apply, autotune_results, autotune_start, autotune_status, autotune_stop,
    autotune_wildcard_all, control_emergency_stop, control_fan_pwm, control_heater_enable,
    control_heater_pwm, control_mode, control_pid, control_root, control_setpoint,
    control_wildcard, debug_wildcard_all, parse_roaster_topic, status_topic,
    status_wildcard_all, telemetry_topic, telemetry_wildcard_all, topic_segment, ROOT,
};

#[test]
fn root_is_roaster() {
    assert_eq!(ROOT, "roaster");
}

#[test]
fn device_scoped_topics() {
    assert_eq!(telemetry_topic("dev1"), "roaster/dev1/telemetry");
    assert_eq!(status_topic("dev1"), "roaster/dev1/status");
    assert_eq!(control_root("dev1"), "roaster/dev1/control");
}

#[test]
fn control_topics() {
    assert_eq!(control_setpoint("dev1"), "roaster/dev1/control/setpoint");
    assert_eq!(control_fan_pwm("dev1"), "roaster/dev1/control/fan_pwm");
    assert_eq!(control_heater_pwm("dev1"), "roaster/dev1/control/heater_pwm");
    assert_eq!(control_mode("dev1"), "roaster/dev1/control/mode");
    assert_eq!(control_heater_enable("dev1"), "roaster/dev1/control/heater_enable");
    assert_eq!(control_pid("dev1"), "roaster/dev1/control/pid");
    assert_eq!(control_emergency_stop("dev1"), "roaster/dev1/control/emergency_stop");
}

#[test]
fn autotune_topics() {
    assert_eq!(autotune_status("dev1"), "roaster/dev1/autotune/status");
    assert_eq!(autotune_start("dev1"), "roaster/dev1/autotune/start");
    assert_eq!(autotune_stop("dev1"), "roaster/dev1/autotune/stop");
    assert_eq!(autotune_apply("dev1"), "roaster/dev1/autotune/apply");
    assert_eq!(autotune_results("dev1"), "roaster/dev1/autotune/results");
}

#[test]
fn wildcards() {
    assert_eq!(telemetry_wildcard_all(), "roaster/+/telemetry");
    assert_eq!(status_wildcard_all(), "roaster/+/status");
    assert_eq!(autotune_wildcard_all(), "roaster/+/autotune/#");
    assert_eq!(debug_wildcard_all(), "roaster/#");
    assert_eq!(control_wildcard("dev1"), "roaster/dev1/control/#");
}

#[test]
fn topics_keep_unusual_device_ids() {
    assert_eq!(telemetry_topic(""), "roaster//telemetry");
    assert_eq!(telemetry_topic("röster-β"), "roaster/röster-β/telemetry");
}

#[test]
fn parse_reads_device_and_kind() {
    assert_eq!(
        parse_roaster_topic("roaster/dev1/telemetry"),
        Some(("dev1".to_string(), "telemetry".to_string()))
    );
    assert_eq!(
        parse_roaster_topic("roaster/dev1/autotune/status"),
        Some(("dev1".to_string(), "autotune".to_string()))
    );
    assert_eq!(
        parse_roaster_topic("roaster/röster/status"),
        Some(("röster".to_string(), "status".to_string()))
    );
}

#[test]
fn parse_refuses_other_shapes() {
    assert_eq!(parse_roaster_topic(""), None);
    assert_eq!(parse_roaster_topic("roaster"), None);
    assert_eq!(parse_roaster_topic("roaster/dev1"), None);
    assert_eq!(parse_roaster_topic("other/dev1/telemetry"), None);
    assert_eq!(parse_roaster_topic("/roaster/dev1/telemetry"), None);
    assert_eq!(parse_roaster_topic("Roaster/dev1/telemetry"), None);
}

#[test]
fn parse_keeps_empty_segments() {
    assert_eq!(
        parse_roaster_topic("roaster//telemetry"),
        Some(("".to_string(), "telemetry".to_string()))
    );
    assert_eq!(parse_roaster_topic("roaster/dev1/"), Some(("dev1".to_string(), "".to_string())));
}

#[test]
fn parse_round_trips_every_builder() {
    let device = "esp32-7";
    assert_eq!(
        parse_roaster_topic(&telemetry_topic(device)),
        Some((device.to_string(), "telemetry".to_string()))
    );
    assert_eq!(
        parse_roaster_topic(&status_topic(device)),
        Some((device.to_string(), "status".to_string()))
    );
    assert_eq!(
        parse_roaster_topic(&control_pid(device)),
        Some((device.to_string(), "control".to_string()))
    );
    assert_eq!(topic_segment(&control_pid(device), 3), Some("pid".to_string()));
    assert_eq!(topic_segment(&autotune_results(device), 3), Some("results".to_string()));
}

#[test]
fn segments_by_index() {
    assert_eq!(topic_segment("a/b/c", 0), Some("a".to_string()));
    assert_eq!(topic_segment("a/b/c", 2), Some("c".to_string()));
    assert_eq!(topic_segment("a/b/c", 3), None);
    assert_eq!(topic_segment("", 0), Some("".to_string()));
    assert_eq!(topic_segment("", 1), None);
    assert_eq!(topic_segment("a/", 1), Some("".to_string()));
}
