//! Wire-protocol engine of an MQTT client: framing, primitive decoding and
//! the connection state machine, with verified contracts.

pub mod client;
pub mod config;
pub mod eio;
pub mod header;
pub mod io;
pub mod packet;
pub mod types;
pub mod v5;
