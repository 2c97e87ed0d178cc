//! The transport: an MQTT client of `rumqttc` and its event loop, built from
//! the settings of the connection.
//!
//! The client and the event loop are opaque here. What is known of them is the
//! options they were made with, which the contracts below follow from one
//! setter to the next.

use crate::client::MqttService;
use crate::config::{ConfigView, MqttConfig};
use vstd::prelude::*;
use vstd::string::*;

verus! {

/// `rumqttc::MqttOptions`: the options of a transport.
#[verifier::external_type_specification]
#[verifier::external_body]
pub struct ExMqttOptions(rumqttc::MqttOptions);

/// `rumqttc::AsyncClient`: the handle through which requests are made.
#[verifier::external_type_specification]
#[verifier::external_body]
pub struct ExAsyncClient(rumqttc::AsyncClient);

/// `rumqttc::EventLoop`: the loop that is polled to move the connection along.
#[verifier::external_type_specification]
#[verifier::external_body]
pub struct ExEventLoop(rumqttc::EventLoop);

/// How many requests wait between the client and its event loop.
pub const REQUEST_CAPACITY: usize = 64;

/// The options of a transport that the gateway sets.
pub struct TransportOptions {
    pub client_id: Seq<char>,
    pub host: Seq<char>,
    pub port: u16,
    /// The keep-alive in whole seconds.
    pub keep_alive_secs: u64,
    pub clean_session: bool,
    /// The user name and the password, when credentials are set.
    pub credentials: Option<(Seq<char>, Seq<char>)>,
    pub request_capacity: usize,
}

/// What a set of options holds.
pub uninterp spec fn options_held(options: rumqttc::MqttOptions) -> TransportOptions;

/// The options that an event loop was made with.
pub uninterp spec fn eventloop_options(eventloop: rumqttc::EventLoop) -> TransportOptions;

/// `MqttOptions::new`: options for the broker at `host:port` under `client_id`,
/// with the defaults of the library for the rest: a keep-alive of 60 seconds,
/// a clean session, no credentials and room for 10 requests.
#[verifier::external_body]
fn new_options(client_id: &str, host: &str, port: u16) -> (r: rumqttc::MqttOptions)
    ensures
        options_held(r) == (TransportOptions {
            client_id: client_id@,
            host: host@,
            port,
            keep_alive_secs: 60,
            clean_session: true,
            credentials: None,
            request_capacity: 10,
        }),
{
    rumqttc::MqttOptions::new(client_id, host, port)
}

/// `MqttOptions::set_keep_alive` with whole seconds, which it takes without
/// complaint: it refuses only a part of a second.
#[verifier::external_body]
fn set_keep_alive(options: &mut rumqttc::MqttOptions, secs: u16)
    ensures
        options_held(*final(options)) == (TransportOptions {
            keep_alive_secs: secs as u64,
            ..options_held(*old(options))
        }),
{
    options.set_keep_alive(std::time::Duration::from_secs(secs as u64));
}

/// `MqttOptions::set_clean_session`. It panics when asked for a persistent
/// session while the client id is empty.
#[verifier::external_body]
fn set_clean_session(options: &mut rumqttc::MqttOptions, clean_session: bool)
    requires
        clean_session || options_held(*old(options)).client_id.len() > 0,
    ensures
        options_held(*final(options)) == (TransportOptions {
            clean_session,
            ..options_held(*old(options))
        }),
{
    options.set_clean_session(clean_session);
}

/// `MqttOptions::set_credentials`.
#[verifier::external_body]
fn set_credentials(options: &mut rumqttc::MqttOptions, username: &str, password: &str)
    ensures
        options_held(*final(options)) == (TransportOptions {
            credentials: Some((username@, password@)),
            ..options_held(*old(options))
        }),
{
    options.set_credentials(username, password);
}

/// `MqttOptions::set_request_channel_capacity`.
#[verifier::external_body]
fn set_request_capacity(options: &mut rumqttc::MqttOptions, capacity: usize)
    ensures
        options_held(*final(options)) == (TransportOptions {
            request_capacity: capacity,
            ..options_held(*old(options))
        }),
{
    options.set_request_channel_capacity(capacity);
}

/// `AsyncClient::new`: a client and the event loop that serves it. The event
/// loop keeps the options it is given. Nothing is sent before the loop is polled.
#[verifier::external_body]
fn new_client(options: rumqttc::MqttOptions, capacity: usize) -> (r: (
    rumqttc::AsyncClient,
    rumqttc::EventLoop,
))
    ensures
        eventloop_options(r.1) == options_held(options),
{
    rumqttc::AsyncClient::new(options, capacity)
}

/// Why no transport can be built from the settings.
#[derive(Debug, Clone, Copy, PartialEq, Eq, Structural)]
pub enum ConnectError {
    /// A session that outlives the connection needs a client id.
    MissingClientId,
}

/// Whether a transport can be built from the settings.
pub open spec fn connectable(config: ConfigView) -> bool {
    config.clean_session || config.client_id.len() > 0
}

/// The options of the transport for the settings given. Credentials are set
/// only when both the user name and the password are.
pub open spec fn transport_options(config: ConfigView) -> TransportOptions {
    TransportOptions {
        client_id: config.client_id,
        host: config.host,
        port: config.port,
        keep_alive_secs: config.keep_alive_secs as u64,
        clean_session: config.clean_session,
        credentials: match (config.username, config.password) {
            (Some(username), Some(password)) => Some((username, password)),
            _ => None,
        },
        request_capacity: REQUEST_CAPACITY,
    }
}

/// Builds a fresh client and event loop for the settings.
pub fn build_client(config: &MqttConfig) -> (r: Result<
    (rumqttc::AsyncClient, rumqttc::EventLoop),
    ConnectError,
>)
    ensures
        r is Ok <==> connectable(config@),
        r matches Ok(transport) ==> eventloop_options(transport.1) == transport_options(config@),
{
    if !config.clean_session && config.client_id.as_str().unicode_len() == 0 {
        return Err(ConnectError::MissingClientId);
    }
    let mut options = new_options(config.client_id.as_str(), config.host.as_str(), config.port);
    set_keep_alive(&mut options, config.keep_alive_secs);
    set_clean_session(&mut options, config.clean_session);
    match (&config.username, &config.password) {
        (Some(username), Some(password)) => {
            set_credentials(&mut options, username.as_str(), password.as_str());
        },
        _ => {},
    }
    set_request_capacity(&mut options, REQUEST_CAPACITY);
    Ok(new_client(options, REQUEST_CAPACITY))
}

impl MqttService {
    /// Sets up the connection: a service that is not yet ready and tracks
    /// nothing, and the transport for the settings. The caller polls the event
    /// loop and feeds the service; no connection is waited for here.
    pub fn connect(config: &MqttConfig) -> (r: Result<
        (MqttService, rumqttc::AsyncClient, rumqttc::EventLoop),
        ConnectError,
    >)
        ensures
            r is Ok <==> connectable(config@),
            r matches Ok(made) ==> {
                &&& made.0.wf()
                &&& !made.0@.ready
                &&& made.0@.topics.len() == 0
                &&& made.0@.backoff == crate::client::BACKOFF_FLOOR_SECS
                &&& eventloop_options(made.2) == transport_options(config@)
            },
    {
        match build_client(config) {
            Ok((client, eventloop)) => Ok((MqttService::new(), client, eventloop)),
            Err(e) => Err(e),
        }
    }
}

} // verus!
