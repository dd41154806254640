//! Settings of a connection that travel as properties.

use vstd::prelude::*;

verus! {
/// The longest silence that a connection allows.
#[derive(Clone, Copy, Debug, PartialEq, Eq, Structural)]
pub enum KeepAlive {
    /// There is no limit.
    Infinite,
    /// So many seconds.
    Seconds(u16),
}

/// How long a session outlives its connection.
#[derive(Clone, Copy, Debug, PartialEq, Eq, Structural)]
pub enum SessionExpiryInterval {
    /// The session ends with the connection.
    EndOnDisconnect,
    /// The session never ends.
    NeverEnd,
    /// The session ends so many seconds after the connection.
    Seconds(u32),
}

/// The largest packet that a side accepts.
#[derive(Clone, Copy, Debug, PartialEq, Eq, Structural)]
pub enum MaximumPacketSize {
    Unlimited,
    /// So many bytes, never zero on the wire.
    Limit(u32),
}

/// How many unacknowledged publications a side accepts at once.
#[derive(Clone, Copy, Debug, PartialEq, Eq, Structural)]
pub struct ReceiveMaximum(pub u16);
} // verus!
