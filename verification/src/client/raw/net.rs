//! The state of the connection: healthy, faulted with a reason still to be
//! told to the server, or terminated.

use vstd::prelude::*;
use crate::client::raw::err::Error as RawError;
use crate::types::reason_code::ReasonCode;

verus! {
/// A network connection, in variants that let a failure be handled
/// gracefully. At most one transport is held, and none once terminated.
#[derive(Debug)]
pub enum NetState<N> {
    /// The connection and the dialogue with the server are in order.
    Connected(N),
    /// The connection stands but the dialogue broke the protocol. The
    /// transport is kept so that the reason can still be sent.
    Faulted(N, ReasonCode),
    /// The connection is closed.
    Terminated,
}

/// An error of the connection state.
#[derive(Debug, PartialEq, Eq)]
pub enum Error<E> {
    /// The dialogue failed; the transport is still open and should be used
    /// to send a DISCONNECT packet.
    Faulted,
    /// The transport has been closed.
    Terminated,
    Inner(E),
}

impl<N> Default for NetState<N> {
    fn default() -> (s: NetState<N>)
        ensures
            s == NetState::<N>::Terminated,
    {
        NetState::Terminated
    }
}

/// The transport that a state holds.
pub open spec fn transport_of<N>(s: NetState<N>) -> Option<N> {
    match s {
        NetState::Connected(n) => Some(n),
        NetState::Faulted(n, _) => Some(n),
        NetState::Terminated => None,
    }
}

/// The reason code that a state holds.
pub open spec fn reason_of<N>(s: NetState<N>) -> Option<ReasonCode> {
    match s {
        NetState::Faulted(_, r) => Some(r),
        _ => None,
    }
}

/// The state after a fault with `reason_code`: the transport is kept under
/// the new reason. Without a transport there is nothing to keep.
pub open spec fn failed<N>(s: NetState<N>, reason_code: ReasonCode) -> NetState<N> {
    match s {
        NetState::Connected(n) => NetState::Faulted(n, reason_code),
        NetState::Faulted(n, _) => NetState::Faulted(n, reason_code),
        NetState::Terminated => NetState::Terminated,
    }
}

/// The state after closing: faulted where a reason is given, terminated
/// where none is.
pub open spec fn closed_with<N>(s: NetState<N>, reason_code: Option<ReasonCode>) -> NetState<N> {
    match reason_code {
        Some(r) => failed(s, r),
        None => NetState::Terminated,
    }
}

/// A reason code is held only together with a transport, so a terminated
/// connection has none.
pub proof fn lemma_reason_needs_transport<N>(s: NetState<N>)
    ensures
        reason_of(s) is Some ==> transport_of(s) is Some,
        s is Terminated ==> reason_of(s) is None,
{
}

/// Terminating twice is terminating once: a terminated connection stays
/// terminated, and there is no transport left to hand out.
pub proof fn lemma_terminate_idempotent<N>(s: NetState<N>, reason_code: Option<ReasonCode>)
    ensures
        transport_of(closed_with(s, None)) is None,
        closed_with(closed_with(s, None), None) == closed_with(s, None),
        closed_with(closed_with(s, None), reason_code) == closed_with(s, None),
{
}

impl<N> NetState<N> {
    /// Whether the connection is in order.
    pub fn is_ok(&self) -> (b: bool)
        ensures
            b == (*self is Connected),
    {
        match self {
            NetState::Connected(_) => true,
            _ => false,
        }
    }

    /// Installs `net` as a connection in order.
    pub fn replace(&mut self, net: N)
        ensures
            *final(self) == NetState::Connected(net),
    {
        *self = NetState::Connected(net);
    }

    /// The transport, if the connection is in order.
    pub fn get(&mut self) -> (r: Result<&mut N, Error<()>>)
        ensures
            match r {
                Ok(n) => *old(self) matches NetState::Connected(o) && *n == o && *final(self)
                    == NetState::Connected(*final(n)),
                Err(e) => *final(self) == *old(self) && match *old(self) {
                    NetState::Connected(_) => false,
                    NetState::Faulted(_, _) => e == Error::<()>::Faulted,
                    NetState::Terminated => e == Error::<()>::Terminated,
                },
            },
    {
        match self {
            NetState::Connected(n) => Ok(n),
            NetState::Faulted(_, _) => Err(Error::Faulted),
            NetState::Terminated => Err(Error::Terminated),
        }
    }

    /// The reason code of a faulted connection.
    pub fn get_reason_code(&mut self) -> (r: Option<ReasonCode>)
        ensures
            r == reason_of(*old(self)),
            *final(self) == *old(self),
    {
        match self {
            NetState::Connected(_) => None,
            NetState::Faulted(_, r) => Some(*r),
            NetState::Terminated => None,
        }
    }

    /// Marks the connection as faulted with `reason_code`. A terminated
    /// connection stays terminated.
    pub fn fail(&mut self, reason_code: ReasonCode)
        ensures
            *final(self) == failed(*old(self), reason_code),
    {
        let mut taken = NetState::Terminated;
        core::mem::swap(self, &mut taken);
        match taken {
            NetState::Connected(n) => {
                *self = NetState::Faulted(n, reason_code);
            },
            NetState::Faulted(n, _) => {
                *self = NetState::Faulted(n, reason_code);
            },
            NetState::Terminated => {},
        }
    }

    /// Terminates the connection and hands out the transport it held.
    pub fn terminate(&mut self) -> (r: Option<N>)
        ensures
            *final(self) == NetState::<N>::Terminated,
            r == transport_of(*old(self)),
            *old(self) is Terminated ==> r is None,
    {
        let mut taken = NetState::Terminated;
        core::mem::swap(self, &mut taken);
        match taken {
            NetState::Connected(n) => Some(n),
            NetState::Faulted(n, _) => Some(n),
            NetState::Terminated => None,
        }
    }

    /// Closes the connection: with a reason it becomes faulted, without one
    /// it is terminated and the transport dropped.
    pub fn close_with(&mut self, reason_code: Option<ReasonCode>)
        ensures
            *final(self) == closed_with(*old(self), reason_code),
    {
        match reason_code {
            Some(reason_code) => self.fail(reason_code),
            None => {
                self.terminate();
            },
        }
    }

    /// Settles the outcome of an operation on the transport: a success
    /// passes through, a failure closes the connection as its class demands
    /// and leaves the error.
    pub fn settle<T>(&mut self, outcome: Result<T, (RawError, Option<ReasonCode>)>) -> (r: Result<
        T,
        RawError,
    >)
        ensures
            match outcome {
                Ok(t) => r == Ok::<T, RawError>(t) && *final(self) == *old(self),
                Err((e, reason_code)) => r == Err::<T, RawError>(e) && *final(self) == closed_with(
                    *old(self),
                    reason_code,
                ),
            },
    {
        match outcome {
            Ok(t) => Ok(t),
            Err((e, reason_code)) => {
                self.close_with(reason_code);
                Err(e)
            },
        }
    }
}
} // verus!
