//! Library for an energy-monitor metrics exporter.
//!
//! A remote cloud service reports instantaneous power draw as a JSON
//! document whose numeric fields are hex-encoded strings. This crate
//! decodes such a reading into an exact power value, keeps the most
//! recent value in a registry, and renders the registry's state in the
//! plain-text metric exposition format served under `GET /metrics`.

pub mod client;
pub mod config;
pub mod decode;
pub mod hex;
pub mod power;
pub mod registry;
pub mod render;
pub mod server;
