//! Core of a host agent: the retry and circuit-breaker rules, command validation and
//! dispatch, the metric registry, health aggregation and the telemetry batching, with
//! their contracts proved. Network, process, file and timer work is left to the caller.

pub mod text;
pub mod keyed;
pub mod json;
pub mod types;
pub mod error;
pub mod security;
pub mod metrics;
pub mod platform;
pub mod config;
pub mod health;
pub mod control_plane;
pub mod data_plane;
pub mod logging;
pub mod server;
pub mod agent;
