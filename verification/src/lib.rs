//! Connectivity and event distribution for a fleet of coffee roasters that
//! speak MQTT: the topic layout, the connection state machine, the per-device
//! caches, the rules that route telemetry to storage, and the messages handed
//! to WebSocket clients.

pub mod artisan;
pub mod bridge;
pub mod cache;
pub mod client;
pub mod commands;
pub mod config;
pub mod consumer;
pub mod control;
pub mod event;
pub mod json;
pub mod keyed;
pub mod query;
pub mod session;
pub mod text;
pub mod topics;
pub mod transport;

