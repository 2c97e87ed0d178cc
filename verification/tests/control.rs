use rustroast::client::ClientError;
use rustroast::control::{
    emergency_stop_command, fan_pwm_command, heater_enable_command, heater_pwm_command,
    history_window, is_acknowledgment, mode_command, mode_command_lowered, publish_reply,
    reset_needs_disconnect, reset_reply, retention_cutoff, seconds_setting, ControlError,
    ControlMessage, HistoryWindow, PublishReply, ResetReply, DEFAULT_ACK_TIMEOUT_MS,
    DEFAULT_CLEAN_INTERVAL_SECS, DEFAULT_RETENTION_SECS, RESET_RESUBSCRIBE_DELAY_SECS,
};
use rustroast::event::MqttEvent;

fn message(topic: &str, payload: &str) -> ControlMessage {
    ControlMessage { topic: topic.to_string(), payload: payload.to_string() }
}

#[test]
fn fan_duty_is_at_most_255() {
    assert_eq!(fan_pwm_command("dev1", 0), Ok(message("roaster/dev1/control/fan_pwm", "0")));
    assert_eq!(fan_pwm_command("dev1", 180), Ok(message("roaster/dev1/control/fan_pwm", "180")));
    assert_eq!(fan_pwm_command("dev1", 255), Ok(message("roaster/dev1/control/fan_pwm", "255")));
    assert_eq!(fan_pwm_command("dev1", 256), Err(ControlError::FanPwmOutOfRange));
    assert_eq!(fan_pwm_command("dev1", u16::MAX), Err(ControlError::FanPwmOutOfRange));
}

#[test]
fn heater_duty_is_at_most_100() {
    assert_eq!(heater_pwm_command("dev1", 0), Ok(message("roaster/dev1/control/heater_pwm", "0")));
    assert_eq!(
        heater_pwm_command("dev1", 100),
        Ok(message("roaster/dev1/control/heater_pwm", "100"))
    );
    assert_eq!(heater_pwm_command("dev1", 101), Err(ControlError::HeaterPwmOutOfRange));
    assert_eq!(heater_pwm_command("dev1", 255), Err(ControlError::HeaterPwmOutOfRange));
}

#[test]
fn modes_are_auto_and_manual_in_any_case() {
    assert_eq!(mode_command("dev1", "auto"), Ok(message("roaster/dev1/control/mode", "auto")));
    assert_eq!(mode_command("dev1", "AUTO"), Ok(message("roaster/dev1/control/mode", "auto")));
    assert_eq!(mode_command("dev1", "Manual"), Ok(message("roaster/dev1/control/mode", "manual")));
    assert_eq!(mode_command("dev1", "automatic"), Err(ControlError::UnknownMode));
    assert_eq!(mode_command("dev1", ""), Err(ControlError::UnknownMode));
    assert_eq!(mode_command("dev1", " auto"), Err(ControlError::UnknownMode));
}

#[test]
fn a_lowered_mode_is_taken_as_it_is() {
    assert_eq!(
        mode_command_lowered("dev1", "manual".to_string()),
        Ok(message("roaster/dev1/control/mode", "manual"))
    );
    assert_eq!(mode_command_lowered("dev1", "AUTO".to_string()), Err(ControlError::UnknownMode));
}

#[test]
fn switches_publish_one_or_zero() {
    assert_eq!(
        heater_enable_command("dev1", true),
        message("roaster/dev1/control/heater_enable", "1")
    );
    assert_eq!(
        heater_enable_command("dev1", false),
        message("roaster/dev1/control/heater_enable", "0")
    );
    assert_eq!(emergency_stop_command("dev1"), message("roaster/dev1/control/emergency_stop", "1"));
}

#[test]
fn refusals_say_why() {
    assert_eq!(ControlError::FanPwmOutOfRange.message(), "fan_pwm must be 0..255");
    assert_eq!(ControlError::HeaterPwmOutOfRange.message(), "heater_pwm must be 0..100");
    assert_eq!(ControlError::UnknownMode.message(), "mode must be 'auto' or 'manual'");
}

#[test]
fn a_publish_is_answered() {
    assert_eq!(publish_reply(Ok(()), false, false), PublishReply::Published);
    assert_eq!(publish_reply(Ok(()), false, true), PublishReply::Published);
    assert_eq!(publish_reply(Ok(()), true, true), PublishReply::Published);
    assert_eq!(publish_reply(Ok(()), true, false), PublishReply::AckTimeout);
    for wait_ack in [false, true] {
        for acknowledged in [false, true] {
            assert_eq!(
                publish_reply(Err(ClientError::Request), wait_ack, acknowledged),
                PublishReply::PublishFailed
            );
        }
    }
}

#[test]
fn a_timeout_is_not_a_failed_publish() {
    assert_eq!(PublishReply::Published.status_code(), 204);
    assert_eq!(PublishReply::AckTimeout.status_code(), 504);
    assert_eq!(PublishReply::PublishFailed.status_code(), 502);
    assert_eq!(PublishReply::Published.message(), "");
    assert_eq!(PublishReply::AckTimeout.message(), "MQTT ack timeout");
    assert_eq!(PublishReply::PublishFailed.message(), "MQTT publish failed");
    assert_eq!(DEFAULT_ACK_TIMEOUT_MS, 1000);
}

#[test]
fn only_a_puback_acknowledges() {
    assert!(is_acknowledgment(&MqttEvent::PubAck(1)));
    assert!(!is_acknowledgment(&MqttEvent::Connected));
    assert!(!is_acknowledgment(&MqttEvent::Disconnected));
    assert!(!is_acknowledgment(&MqttEvent::Publish { topic: "t".to_string(), payload: vec![] }));
}

#[test]
fn a_reset_tries_the_subscriptions_first() {
    assert!(!reset_needs_disconnect(Ok(())));
    assert!(reset_needs_disconnect(Err(ClientError::Request)));
    assert_eq!(reset_reply(Ok(()), None), ResetReply::Restored);
    assert_eq!(reset_reply(Ok(()), Some(Err(ClientError::Request))), ResetReply::Restored);
    assert_eq!(reset_reply(Err(ClientError::Request), Some(Ok(()))), ResetReply::Reconnecting);
    assert_eq!(
        reset_reply(Err(ClientError::Request), Some(Err(ClientError::TryRequest))),
        ResetReply::Failed
    );
    assert_eq!(reset_reply(Err(ClientError::Request), None), ResetReply::Failed);
}

#[test]
fn a_reset_is_answered() {
    assert_eq!(ResetReply::Restored.status_code(), 200);
    assert_eq!(ResetReply::Reconnecting.status_code(), 200);
    assert_eq!(ResetReply::Failed.status_code(), 500);
    assert_eq!(ResetReply::Restored.message(), "MQTT reset completed - subscriptions restored");
    assert_eq!(
        ResetReply::Reconnecting.message(),
        "MQTT reset initiated - reconnection will happen automatically"
    );
    assert_eq!(ResetReply::Failed.message(), "Failed to reset MQTT connection");
    assert_eq!(RESET_RESUBSCRIBE_DELAY_SECS, 3);
}

#[test]
fn history_windows() {
    assert_eq!(history_window(10000, None, None), HistoryWindow { since: 6400, limit: 200 });
    assert_eq!(history_window(10000, Some(100), Some(5)), HistoryWindow { since: 9900, limit: 5 });
    assert_eq!(history_window(10000, Some(0), Some(1000)), HistoryWindow { since: 10000, limit: 1000 });
    assert_eq!(history_window(10000, Some(10001), Some(1001)), HistoryWindow { since: 0, limit: 1000 });
    assert_eq!(history_window(10, None, Some(u32::MAX)), HistoryWindow { since: 0, limit: 1000 });
    assert_eq!(history_window(u64::MAX, Some(u64::MAX), Some(0)), HistoryWindow { since: 0, limit: 0 });
}

#[test]
fn retention() {
    assert_eq!(DEFAULT_RETENTION_SECS, 7 * 24 * 3600);
    assert_eq!(DEFAULT_CLEAN_INTERVAL_SECS, 300);
    assert_eq!(retention_cutoff(1700000000, 604800), 1699395200);
    assert_eq!(retention_cutoff(100, 100), 0);
    assert_eq!(retention_cutoff(100, 101), 0);
    assert_eq!(retention_cutoff(100, 0), 100);
}

#[test]
fn settings_in_seconds() {
    assert_eq!(seconds_setting(None, 300), 300);
    assert_eq!(seconds_setting(Some("60".to_string()), 300), 60);
    assert_eq!(seconds_setting(Some("0".to_string()), 300), 0);
    assert_eq!(seconds_setting(Some("".to_string()), 300), 300);
    assert_eq!(seconds_setting(Some("soon".to_string()), 300), 300);
    assert_eq!(seconds_setting(Some("-5".to_string()), 300), 300);
    assert_eq!(seconds_setting(Some("18446744073709551615".to_string()), 300), u64::MAX);
    assert_eq!(seconds_setting(Some("18446744073709551616".to_string()), 300), 300);
    assert_eq!(seconds_setting(Some("99999999999999999999999".to_string()), 300), 300);
}
