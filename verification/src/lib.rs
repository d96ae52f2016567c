//! Telemetry link between a boat's radio slave and the shore services.
//!
//! The library holds the wire format of the radio link (frames and packets),
//! the conversion of received packets into telemetry records, the tag
//! registry of the sensors, the point mapping used to store telemetry, and
//! the state machines of the operator console.
pub mod config;
pub mod console;
pub mod frame;
pub mod influx;
pub mod packets;
pub mod pages;
pub mod service;
pub mod tagger;
pub mod telemetry;
pub mod text;
pub mod wire;
pub mod views;
