//! Protocol version 5.

pub mod packet;
pub mod property;
