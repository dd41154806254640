//! The client side of a connection.

pub mod raw;
