//! What all packets share: how one is decoded and how sending one can fail.

pub mod rx;
pub mod tx;

pub use rx::{RxError, RxPacket};
pub use tx::TxError;
