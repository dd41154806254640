//! Receiving and decoding packets, and writing values.

pub mod agreement;
pub mod body;
pub mod err;
pub mod read;
pub mod reader;
pub mod round_trip;
pub mod write;
