//! The settings of the broker connection and how the environment overrides them.

use crate::text::{decimal, parse_unsigned, parsed_unsigned, push_decimal};
use vstd::prelude::*;
use vstd::string::*;

verus! {

/// The settings of the broker connection.
#[derive(Debug, Clone, PartialEq, Eq)]
pub struct MqttConfig {
    pub host: String,
    pub port: u16,
    pub client_id: String,
    pub username: Option<String>,
    pub password: Option<String>,
    pub keep_alive_secs: u16,
    pub clean_session: bool,
}

/// The values of the environment variables that override the settings, each
/// `None` where the variable is not set.
#[derive(Debug, Clone, Default)]
pub struct MqttEnv {
    /// `MQTT_BROKER_HOST`
    pub broker_host: Option<String>,
    /// `MQTT_BROKER_PORT`
    pub broker_port: Option<String>,
    /// `MQTT_CLIENT_ID`
    pub client_id: Option<String>,
    /// `MQTT_USERNAME`
    pub username: Option<String>,
    /// `MQTT_PASSWORD`
    pub password: Option<String>,
    /// `MQTT_KEEP_ALIVE_SECS`
    pub keep_alive_secs: Option<String>,
}

/// The settings over mathematical values.
pub struct ConfigView {
    pub host: Seq<char>,
    pub port: u16,
    pub client_id: Seq<char>,
    pub username: Option<Seq<char>>,
    pub password: Option<Seq<char>>,
    pub keep_alive_secs: u16,
    pub clean_session: bool,
}

/// The characters of a string that may be absent.
pub open spec fn chars_of(s: Option<String>) -> Option<Seq<char>> {
    match s {
        Some(held) => Some(held@),
        None => None,
    }
}

impl View for MqttConfig {
    type V = ConfigView;

    open spec fn view(&self) -> ConfigView {
        ConfigView {
            host: self.host@,
            port: self.port,
            client_id: self.client_id@,
            username: chars_of(self.username),
            password: chars_of(self.password),
            keep_alive_secs: self.keep_alive_secs,
            clean_session: self.clean_session,
        }
    }
}

/// The number that a text stands for as a `u16`: an optional plus sign, then
/// one or more decimal digits and nothing else, and a value that fits.
pub open spec fn parsed_u16(s: Seq<char>) -> Option<u16> {
    match parsed_unsigned(s, u16::MAX as nat) {
        Some(n) => Some(n as u16),
        None => None,
    }
}

/// Reads a `u16` from its decimal numeral.
pub fn parse_u16(s: &str) -> (r: Option<u16>)
    ensures
        r == parsed_u16(s@),
{
    match parse_unsigned(s, 65535) {
        Some(n) => Some(n as u16),
        None => None,
    }
}

/// `fresh` if it is set and not empty, else `kept`.
pub open spec fn overridden(fresh: Option<Seq<char>>, kept: Seq<char>) -> Seq<char> {
    match fresh {
        Some(v) if v.len() > 0 => v,
        _ => kept,
    }
}

/// `fresh` if it is set and not empty, else `kept`.
pub open spec fn overridden_option(fresh: Option<Seq<char>>, kept: Option<Seq<char>>) -> Option<
    Seq<char>,
> {
    match fresh {
        Some(v) if v.len() > 0 => Some(v),
        _ => kept,
    }
}

/// The number that `fresh` stands for if it is set and is a number, else `kept`.
pub open spec fn overridden_number(fresh: Option<Seq<char>>, kept: u16) -> u16 {
    match fresh {
        Some(v) => match parsed_u16(v) {
            Some(n) => n,
            None => kept,
        },
        None => kept,
    }
}

/// The settings that `base` and the environment give: a variable that is set
/// and not empty replaces the text it names, a variable that is a number
/// replaces the number it names, and every other setting stays as in `base`.
pub open spec fn with_env(base: ConfigView, env: MqttEnv) -> ConfigView {
    ConfigView {
        host: overridden(chars_of(env.broker_host), base.host),
        port: overridden_number(chars_of(env.broker_port), base.port),
        client_id: overridden(chars_of(env.client_id), base.client_id),
        username: overridden_option(chars_of(env.username), base.username),
        password: overridden_option(chars_of(env.password), base.password),
        keep_alive_secs: overridden_number(chars_of(env.keep_alive_secs), base.keep_alive_secs),
        clean_session: base.clean_session,
    }
}

/// The client id of a process: `rustroast-{host}-{pid}`, with `unknown-host`
/// where the name of the host is not known.
pub open spec fn client_id_of(host: Option<Seq<char>>, pid: u32) -> Seq<char> {
    "rustroast-"@ + match host {
        Some(name) => name,
        None => "unknown-host"@,
    } + seq!['-'] + decimal(pid as nat)
}

/// The client id under which the process `pid` on `host` connects.
pub fn default_client_id(host: Option<String>, pid: u32) -> (r: String)
    ensures
        r@ == client_id_of(chars_of(host), pid),
{
    let mut out = String::from_str("rustroast-");
    match host {
        Some(name) => out.append(name.as_str()),
        None => out.append("unknown-host"),
    }
    out.push('-');
    push_decimal(&mut out, pid as u64);
    proof {
        let middle = match chars_of(host) {
            Some(name) => name,
            None => "unknown-host"@,
        };
        assert(out@ == "rustroast-"@ + middle + seq!['-'] + decimal(pid as nat));
    }
    out
}

fn text_or(fresh: Option<String>, kept: String) -> (r: String)
    ensures
        r@ == overridden(chars_of(fresh), kept@),
{
    match fresh {
        Some(v) => {
            if v.as_str().unicode_len() > 0 {
                v
            } else {
                kept
            }
        },
        None => kept,
    }
}

fn option_or(fresh: Option<String>, kept: Option<String>) -> (r: Option<String>)
    ensures
        chars_of(r) == overridden_option(chars_of(fresh), chars_of(kept)),
{
    match fresh {
        Some(v) => {
            if v.as_str().unicode_len() > 0 {
                Some(v)
            } else {
                kept
            }
        },
        None => kept,
    }
}

fn number_or(fresh: Option<String>, kept: u16) -> (r: u16)
    ensures
        r == overridden_number(chars_of(fresh), kept),
{
    match fresh {
        Some(v) => match parse_u16(v.as_str()) {
            Some(n) => n,
            None => kept,
        },
        None => kept,
    }
}

impl MqttConfig {
    /// The settings used where nothing else is said: the broker at
    /// `192.168.1.254:1883`, no credentials, a keep-alive of 30 seconds and a
    /// clean session, under the client id given.
    pub fn new(client_id: String) -> (r: Self)
        ensures
            r@ == (ConfigView {
                host: "192.168.1.254"@,
                port: 1883,
                client_id: client_id@,
                username: None,
                password: None,
                keep_alive_secs: 30,
                clean_session: true,
            }),
    {
        MqttConfig {
            host: String::from_str("192.168.1.254"),
            port: 1883,
            client_id,
            username: None,
            password: None,
            keep_alive_secs: 30,
            clean_session: true,
        }
    }

    /// The settings of `base` with what the environment overrides.
    pub fn from_env(base: MqttConfig, env: MqttEnv) -> (r: Self)
        ensures
            r@ == with_env(base@, env),
    {
        MqttConfig {
            host: text_or(env.broker_host, base.host),
            port: number_or(env.broker_port, base.port),
            client_id: text_or(env.client_id, base.client_id),
            username: option_or(env.username, base.username),
            password: option_or(env.password, base.password),
            keep_alive_secs: number_or(env.keep_alive_secs, base.keep_alive_secs),
            clean_session: base.clean_session,
        }
    }
}

} // verus!
