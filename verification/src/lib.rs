//! Verified core of a telemetry dial-out collector: UDP header parsing,
//! fragment reassembly, configuration decisions and the text that the
//! collector prints for each received message.

pub mod error;
pub mod models;
pub mod udp_header;
pub mod buffers;
pub mod chunk;
pub mod text;
pub mod config;
pub mod dialout;
pub mod server;
pub mod gui;
pub mod json;
pub mod proto_dynamic;
pub mod logging_setup;
