//! The rules of the control layer: which commands are well formed, what is
//! published for them, and what a caller is told about a publish.

use crate::client::ClientError;
use crate::event::MqttEvent;
use crate::text::{decimal, push_decimal, str_eq};
use crate::topics::{device_subtopic, control_fan_pwm, control_heater_enable, control_heater_pwm, control_mode, control_emergency_stop};
use vstd::prelude::*;
use vstd::string::*;

verus! {

/// The largest fan duty.
pub const FAN_PWM_MAX: u16 = 255;

/// The largest heater duty, in percent.
pub const HEATER_PWM_MAX: u8 = 100;

/// How long a caller waits for an acknowledgment when it names no bound, in milliseconds.
pub const DEFAULT_ACK_TIMEOUT_MS: u64 = 1000;

/// How long after a disconnect the subscriptions are issued again, in seconds.
pub const RESET_RESUBSCRIBE_DELAY_SECS: u64 = 3;

/// What is published for a command.
#[derive(Debug, Clone, PartialEq, Eq)]
pub struct ControlMessage {
    pub topic: String,
    pub payload: String,
}

/// Why a command is refused.
#[derive(Debug, Clone, Copy, PartialEq, Eq, Structural)]
pub enum ControlError {
    FanPwmOutOfRange,
    HeaterPwmOutOfRange,
    UnknownMode,
}

impl ControlError {
    /// What the caller is told.
    pub fn message(&self) -> (r: &'static str)
        ensures
            r@ == match *self {
                ControlError::FanPwmOutOfRange => "fan_pwm must be 0..255"@,
                ControlError::HeaterPwmOutOfRange => "heater_pwm must be 0..100"@,
                ControlError::UnknownMode => "mode must be 'auto' or 'manual'"@,
            },
    {
        match self {
            ControlError::FanPwmOutOfRange => "fan_pwm must be 0..255",
            ControlError::HeaterPwmOutOfRange => "heater_pwm must be 0..100",
            ControlError::UnknownMode => "mode must be 'auto' or 'manual'",
        }
    }
}

/// The lower-case form of a text.
pub uninterp spec fn lowercase(s: Seq<char>) -> Seq<char>;

/// `str::to_lowercase`: the text with every character replaced by its
/// lower-case form.
#[verifier::external_body]
fn to_lowercase(s: &str) -> (r: String)
    ensures
        r@ == lowercase(s@),
{
    s.to_lowercase()
}

fn numeral(n: u64) -> (r: String)
    ensures
        r@ == decimal(n as nat),
{
    let mut out = String::new();
    push_decimal(&mut out, n);
    assert(Seq::<char>::empty() + decimal(n as nat) == decimal(n as nat));
    out
}

/// The command that sets the fan duty of `device_id` to `value`.
pub fn fan_pwm_command(device_id: &str, value: u16) -> (r: Result<ControlMessage, ControlError>)
    ensures
        match r {
            Ok(message) => value <= FAN_PWM_MAX && message.topic@ == device_subtopic(
                device_id@,
                "control"@,
                "fan_pwm"@,
            ) && message.payload@ == decimal(value as nat),
            Err(e) => value > FAN_PWM_MAX && e == ControlError::FanPwmOutOfRange,
        },
{
    if value > FAN_PWM_MAX {
        return Err(ControlError::FanPwmOutOfRange);
    }
    Ok(ControlMessage { topic: control_fan_pwm(device_id), payload: numeral(value as u64) })
}

/// The command that sets the heater duty of `device_id` to `value` percent.
pub fn heater_pwm_command(device_id: &str, value: u8) -> (r: Result<ControlMessage, ControlError>)
    ensures
        match r {
            Ok(message) => value <= HEATER_PWM_MAX && message.topic@ == device_subtopic(
                device_id@,
                "control"@,
                "heater_pwm"@,
            ) && message.payload@ == decimal(value as nat),
            Err(e) => value > HEATER_PWM_MAX && e == ControlError::HeaterPwmOutOfRange,
        },
{
    if value > HEATER_PWM_MAX {
        return Err(ControlError::HeaterPwmOutOfRange);
    }
    Ok(ControlMessage { topic: control_heater_pwm(device_id), payload: numeral(value as u64) })
}

/// Whether a text in lower case names a control mode.
pub open spec fn is_mode(lowered: Seq<char>) -> bool {
    lowered == "auto"@ || lowered == "manual"@
}

/// The command that switches `device_id` to the mode that `lowered` names.
/// The name is taken as it is: it has to be in lower case already.
pub fn mode_command_lowered(device_id: &str, lowered: String) -> (r: Result<
    ControlMessage,
    ControlError,
>)
    ensures
        match r {
            Ok(message) => is_mode(lowered@) && message.topic@ == device_subtopic(
                device_id@,
                "control"@,
                "mode"@,
            ) && message.payload@ == lowered@,
            Err(e) => !is_mode(lowered@) && e == ControlError::UnknownMode,
        },
{
    if !str_eq(lowered.as_str(), "auto") && !str_eq(lowered.as_str(), "manual") {
        return Err(ControlError::UnknownMode);
    }
    Ok(ControlMessage { topic: control_mode(device_id), payload: lowered })
}

/// The command that switches `device_id` to `mode`, which is `auto` or
/// `manual` in any mix of upper and lower case.
pub fn mode_command(device_id: &str, mode: &str) -> (r: Result<ControlMessage, ControlError>)
    ensures
        match r {
            Ok(message) => is_mode(lowercase(mode@)) && message.topic@ == device_subtopic(
                device_id@,
                "control"@,
                "mode"@,
            ) && message.payload@ == lowercase(mode@),
            Err(e) => !is_mode(lowercase(mode@)) && e == ControlError::UnknownMode,
        },
{
    mode_command_lowered(device_id, to_lowercase(mode))
}

/// The command that enables or disables the heater of `device_id`.
pub fn heater_enable_command(device_id: &str, enabled: bool) -> (r: ControlMessage)
    ensures
        r.topic@ == device_subtopic(device_id@, "control"@, "heater_enable"@),
        r.payload@ == if enabled {
            "1"@
        } else {
            "0"@
        },
{
    ControlMessage {
        topic: control_heater_enable(device_id),
        payload: String::from_str(
            if enabled {
                "1"
            } else {
                "0"
            },
        ),
    }
}

/// The command that stops `device_id` at once.
pub fn emergency_stop_command(device_id: &str) -> (r: ControlMessage)
    ensures
        r.topic@ == device_subtopic(device_id@, "control"@, "emergency_stop"@),
        r.payload@ == "1"@,
{
    ControlMessage { topic: control_emergency_stop(device_id), payload: String::from_str("1") }
}

/// What a caller is told about a publish.
#[derive(Debug, Clone, Copy, PartialEq, Eq, Structural)]
pub enum PublishReply {
    /// The message went out, and was acknowledged where that was asked for.
    Published,
    /// The message went out, but no acknowledgment came in time.
    AckTimeout,
    /// The transport refused the message.
    PublishFailed,
}

/// The reply to a publish: a refusal of the transport is a failure of the
/// publish; a missing acknowledgment is a timeout, and only where the caller
/// asked to wait for one.
pub open spec fn reply_of(published: bool, wait_ack: bool, acknowledged: bool) -> PublishReply {
    if !published {
        PublishReply::PublishFailed
    } else if wait_ack && !acknowledged {
        PublishReply::AckTimeout
    } else {
        PublishReply::Published
    }
}

/// The reply to a publish that the transport took or refused, as
/// `publish_outcome` says, for a caller that did or did not ask to wait for an
/// acknowledgment, which did or did not come within the bound.
pub fn publish_reply(
    publish_outcome: Result<(), ClientError>,
    wait_ack: bool,
    acknowledged: bool,
) -> (r: PublishReply)
    ensures
        r == reply_of(publish_outcome is Ok, wait_ack, acknowledged),
{
    match publish_outcome {
        Err(_) => PublishReply::PublishFailed,
        Ok(_) => {
            if wait_ack && !acknowledged {
                PublishReply::AckTimeout
            } else {
                PublishReply::Published
            }
        },
    }
}

/// Whether an event is the acknowledgment of a publish.
pub fn is_acknowledgment(event: &MqttEvent) -> (r: bool)
    ensures
        r == (event@ is PubAck),
{
    match event {
        MqttEvent::PubAck(_) => true,
        _ => false,
    }
}

impl PublishReply {
    /// The HTTP status that stands for the reply.
    pub fn status_code(&self) -> (r: u16)
        ensures
            r == match *self {
                PublishReply::Published => 204u16,
                PublishReply::AckTimeout => 504u16,
                PublishReply::PublishFailed => 502u16,
            },
    {
        match self {
            PublishReply::Published => 204,
            PublishReply::AckTimeout => 504,
            PublishReply::PublishFailed => 502,
        }
    }

    /// What the caller is told, if anything.
    pub fn message(&self) -> (r: &'static str)
        ensures
            r@ == match *self {
                PublishReply::Published => ""@,
                PublishReply::AckTimeout => "MQTT ack timeout"@,
                PublishReply::PublishFailed => "MQTT publish failed"@,
            },
    {
        match self {
            PublishReply::Published => "",
            PublishReply::AckTimeout => "MQTT ack timeout",
            PublishReply::PublishFailed => "MQTT publish failed",
        }
    }
}

/// How a reset of the broker connection went.
#[derive(Debug, Clone, Copy, PartialEq, Eq, Structural)]
pub enum ResetReply {
    /// The subscriptions were issued again; the connection stays.
    Restored,
    /// The connection was given up; it comes back by itself, and the
    /// subscriptions are issued again after [`RESET_RESUBSCRIBE_DELAY_SECS`].
    Reconnecting,
    /// Neither worked.
    Failed,
}

/// The outcome of a reset: issuing the subscriptions again is tried first,
/// and only where that fails the connection is given up.
pub open spec fn reset_of(resubscribed: bool, disconnected: bool) -> ResetReply {
    if resubscribed {
        ResetReply::Restored
    } else if disconnected {
        ResetReply::Reconnecting
    } else {
        ResetReply::Failed
    }
}

/// Whether a reset has to give up the connection: it has when issuing the
/// subscriptions again failed.
pub fn reset_needs_disconnect(resubscribe_outcome: Result<(), ClientError>) -> (r: bool)
    ensures
        r == (resubscribe_outcome is Err),
{
    resubscribe_outcome.is_err()
}

/// The outcome of a reset. `disconnect_outcome` is `None` where no disconnect
/// was tried.
pub fn reset_reply(
    resubscribe_outcome: Result<(), ClientError>,
    disconnect_outcome: Option<Result<(), ClientError>>,
) -> (r: ResetReply)
    ensures
        r == reset_of(
            resubscribe_outcome is Ok,
            disconnect_outcome matches Some(outcome) && outcome is Ok,
        ),
{
    if resubscribe_outcome.is_ok() {
        return ResetReply::Restored;
    }
    match disconnect_outcome {
        Some(Ok(_)) => ResetReply::Reconnecting,
        _ => ResetReply::Failed,
    }
}

impl ResetReply {
    /// The HTTP status that stands for the outcome.
    pub fn status_code(&self) -> (r: u16)
        ensures
            r == match *self {
                ResetReply::Restored => 200u16,
                ResetReply::Reconnecting => 200u16,
                ResetReply::Failed => 500u16,
            },
    {
        match self {
            ResetReply::Restored => 200,
            ResetReply::Reconnecting => 200,
            ResetReply::Failed => 500,
        }
    }

    /// What the caller is told.
    pub fn message(&self) -> (r: &'static str)
        ensures
            r@ == match *self {
                ResetReply::Restored => "MQTT reset completed - subscriptions restored"@,
                ResetReply::Reconnecting => "MQTT reset initiated - reconnection will happen automatically"@,
                ResetReply::Failed => "Failed to reset MQTT connection"@,
            },
    {
        match self {
            ResetReply::Restored => "MQTT reset completed - subscriptions restored",
            ResetReply::Reconnecting => "MQTT reset initiated - reconnection will happen automatically",
            ResetReply::Failed => "Failed to reset MQTT connection",
        }
    }
}

/// The rows of a history that a caller asks for.
#[derive(Debug, Clone, Copy, PartialEq, Eq, Structural)]
pub struct HistoryWindow {
    /// Rows not older than this time, in seconds since the epoch.
    pub since: u64,
    /// At most this many rows.
    pub limit: u32,
}

/// How far back a history reaches when the caller does not say, in seconds.
pub const DEFAULT_HISTORY_SECS: u64 = 3600;

/// How many rows a history holds when the caller does not say.
pub const DEFAULT_HISTORY_LIMIT: u32 = 200;

/// The most rows a history holds, whatever the caller says.
pub const MAX_HISTORY_LIMIT: u32 = 1000;

/// `now - back`, or zero where that would be before the epoch.
pub open spec fn seconds_before(now: u64, back: u64) -> u64 {
    if back <= now {
        (now - back) as u64
    } else {
        0
    }
}

/// The window of a history asked for at `now`.
pub fn history_window(now: u64, since_secs: Option<u64>, limit: Option<u32>) -> (r: HistoryWindow)
    ensures
        r.since == seconds_before(
            now,
            match since_secs {
                Some(s) => s,
                None => DEFAULT_HISTORY_SECS,
            },
        ),
        r.limit == match limit {
            Some(n) if n <= MAX_HISTORY_LIMIT => n,
            Some(_) => MAX_HISTORY_LIMIT,
            None => DEFAULT_HISTORY_LIMIT,
        },
{
    let back = match since_secs {
        Some(s) => s,
        None => DEFAULT_HISTORY_SECS,
    };
    let asked = match limit {
        Some(n) => n,
        None => DEFAULT_HISTORY_LIMIT,
    };
    HistoryWindow {
        since: if back <= now {
            now - back
        } else {
            0
        },
        limit: if asked <= MAX_HISTORY_LIMIT {
            asked
        } else {
            MAX_HISTORY_LIMIT
        },
    }
}

/// How long telemetry rows are kept when nothing else is said: a week, in seconds.
pub const DEFAULT_RETENTION_SECS: u64 = 604800;

/// How often old rows are cleaned away when nothing else is said, in seconds.
pub const DEFAULT_CLEAN_INTERVAL_SECS: u64 = 300;

/// The time before which telemetry rows are deleted by a cleanup at `now`.
pub fn retention_cutoff(now: u64, ttl_secs: u64) -> (r: u64)
    ensures
        r == seconds_before(now, ttl_secs),
{
    if ttl_secs <= now {
        now - ttl_secs
    } else {
        0
    }
}

/// The number of seconds that a setting gives: the number it stands for, or
/// `default` where it is not set or no number.
pub fn seconds_setting(value: Option<String>, default: u64) -> (r: u64)
    ensures
        r == match value {
            Some(text) => match crate::text::parsed_unsigned(text@, u64::MAX as nat) {
                Some(n) => n,
                None => default,
            },
            None => default,
        },
{
    match value {
        Some(text) => match crate::text::parse_unsigned(text.as_str(), u64::MAX) {
            Some(n) => n,
            None => default,
        },
        None => default,
    }
}

} // verus!
