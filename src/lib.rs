//! Core logic of a small network-status dashboard: the shared state slots and
//! the lossy broadcast channel between producers and the renderer, the
//! connection state machine, the telemetry decoders and poll scheduling, the
//! renderer's page state machine with the text it shows, and the pulse
//! encoding of an LED chain.

pub mod text;
pub mod bus;
pub mod channel;
pub mod wifi;
pub mod udp_client;
pub mod openwrt;
pub mod display;
pub mod argb;
