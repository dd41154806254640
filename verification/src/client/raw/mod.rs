//! Primitives for handling a connection along with sending and receiving
//! packets.

pub mod err;
pub mod net;

pub use err::Error as RawError;
pub use net::Error as NetStateError;
pub use net::NetState;

use vstd::prelude::*;
use vstd::std_specs::convert::IntoSpec;
use crate::eio::ErrorKind;
use crate::header::FixedHeader;
use crate::io::reader::{
    deliver, exceeded, initial, pending, ready, spec_read, want, PacketDecodeToken,
    PacketReceiver, Progress, ReceiverView,
};
use crate::packet::rx::{RxError, RxPacket};
use crate::packet::tx::TxError;
use crate::types::reason_code::ReasonCode;
use crate::v5::packet::DisconnectPacket;
use err::{classify_reader, classify_rx, classify_tx};
use net::closed_with;

verus! {
/// A client with a low-level interface for sending and receiving packets:
/// one receiver over a caller's buffer and the state of one connection.
///
/// The client never waits on the transport. Receiving is a dialogue: `recv`
/// says how many bytes are needed, the caller reads them from the transport
/// that `net` lends, and `recv_read` takes the outcome. What was received
/// stays in the client between the calls, so a read that the caller gives up
/// loses nothing. Sending is gated by `net` and settled by `finish_tx`.
pub struct Raw<'b, N> {
    n: NetState<N>,
    receiver: PacketReceiver<'b>,
}

/// Access to the connection state while a decoded packet borrows the buffer.
pub struct RawHandle<'h, N> {
    pub n: &'h mut NetState<N>,
}

/// What is left to do after `abort`: the packet to send and the detached
/// transport to send it on.
pub struct Farewell<N> {
    pub net: N,
    pub packet: DisconnectPacket,
}

/// The farewell owed in a state: a faulted connection owes its reason code
/// to the server, any other owes nothing.
pub open spec fn farewell_of<N>(s: NetState<N>) -> Option<Farewell<N>> {
    match s {
        NetState::Faulted(net, reason_code) => Some(
            Farewell { net, packet: DisconnectPacket { reason_code } },
        ),
        _ => None,
    }
}

/// The error of a DISCONNECT that could not be sent.
pub open spec fn farewell_error(e: TxError<ErrorKind>) -> RawError {
    match e {
        TxError::Write(kind) => RawError::Network(kind),
        _ => RawError::Network(ErrorKind::WriteZero),
    }
}

impl<'b, N> Raw<'b, N> {
    /// The connection state.
    pub closed spec fn net_state(&self) -> NetState<N> {
        self.n
    }

    /// What the receiver holds.
    pub closed spec fn receiver(&self) -> ReceiverView {
        self.receiver@
    }

    /// The receiver is well formed.
    pub closed spec fn wf(&self) -> bool {
        self.receiver.wf()
    }

    /// A client without a connection that receives into `rx_buffer`, which
    /// must hold at least the five bytes of the longest fixed header.
    pub fn new_disconnected(rx_buffer: &'b mut [u8]) -> (raw: Raw<'b, N>)
        requires
            old(rx_buffer)@.len() >= 5,
        ensures
            raw.wf(),
            raw.net_state() is Terminated,
            raw.receiver() == initial(old(rx_buffer)@.len()),
    {
        Raw { n: NetState::Terminated, receiver: PacketReceiver::new(rx_buffer) }
    }

    /// Whether the connection is in order.
    pub fn is_ok(&self) -> (b: bool)
        ensures
            b == (self.net_state() is Connected),
    {
        self.n.is_ok()
    }

    /// The connection state.
    pub fn state(&self) -> (s: &NetState<N>)
        ensures
            *s == self.net_state(),
    {
        &self.n
    }

    /// The header of the packet in reception, once it is complete.
    pub fn header(&self) -> (h: Option<FixedHeader>)
        ensures
            match h {
                Some(h) => self.receiver().header == Some(h@),
                None => self.receiver().header is None,
            },
    {
        self.receiver.header()
    }

    /// Installs a transport. A connection in order is never replaced.
    pub fn set_net(&mut self, net: N)
        requires
            !(old(self).net_state() is Connected),
        ensures
            final(self).net_state() == NetState::Connected(net),
            final(self).receiver() == old(self).receiver(),
            final(self).wf() == old(self).wf(),
    {
        self.n.replace(net);
    }

    /// Closes the connection: faulted where a reason is given, terminated
    /// where none is.
    pub fn close_with(&mut self, reason_code: Option<ReasonCode>)
        ensures
            final(self).net_state() == closed_with(old(self).net_state(), reason_code),
            final(self).receiver() == old(self).receiver(),
            final(self).wf() == old(self).wf(),
    {
        self.n.close_with(reason_code);
    }

    /// Lends the transport for an operation, if the connection is in order.
    /// Otherwise the client is disconnected, and stays as it is.
    pub fn net(&mut self) -> (r: Result<&mut N, RawError>)
        ensures
            final(self).receiver() == old(self).receiver(),
            final(self).wf() == old(self).wf(),
            match r {
                Ok(n) => old(self).net_state() matches NetState::Connected(o) && *n == o
                    && final(self).net_state() == NetState::Connected(*final(n)),
                Err(e) => !(old(self).net_state() is Connected) && e == RawError::Disconnected
                    && final(self).net_state() == old(self).net_state(),
            },
    {
        match self.n.get() {
            Ok(n) => Ok(n),
            Err(_) => Err(RawError::Disconnected),
        }
    }

    /// Applies an error of receiving or decoding to the connection: a class
    /// with a reason code faults it, a class without one terminates it.
    pub fn handle_rx<E: Into<(RawError, Option<ReasonCode>)>>(&mut self, e: E) -> (r: RawError)
        ensures
            final(self).receiver() == old(self).receiver(),
            final(self).wf() == old(self).wf(),
            E::obeys_into_spec() ==> r == e.into_spec().0 && final(self).net_state()
                == closed_with(old(self).net_state(), e.into_spec().1),
    {
        let (e, r) = e.into();
        match r {
            Some(r) => self.n.fail(r),
            None => {
                self.n.terminate();
            },
        }
        e
    }

    /// Applies an error of sending to the connection, which it terminates
    /// at once: after a failed send no further packet is sent.
    pub fn handle_tx(&mut self, e: TxError<ErrorKind>) -> (r: RawError)
        ensures
            r == classify_tx(e).0,
            final(self).net_state() is Terminated,
            final(self).receiver() == old(self).receiver(),
            final(self).wf() == old(self).wf(),
    {
        self.n.terminate();
        let (e, _) = <(RawError, Option<ReasonCode>)>::from(e);
        e
    }

    /// Settles a send or a flush on the transport that `net` lent: a
    /// success changes nothing, a failure terminates the connection.
    pub fn finish_tx(&mut self, outcome: Result<(), TxError<ErrorKind>>) -> (r: Result<
        (),
        RawError,
    >)
        ensures
            final(self).receiver() == old(self).receiver(),
            final(self).wf() == old(self).wf(),
            match outcome {
                Ok(()) => r is Ok && final(self).net_state() == old(self).net_state(),
                Err(e) => r == Err::<(), RawError>(classify_tx(e).0) && final(self).net_state()
                    is Terminated,
            },
    {
        let classed = match outcome {
            Ok(()) => Ok(()),
            Err(e) => Err(<(RawError, Option<ReasonCode>)>::from(e)),
        };
        self.n.settle(classed)
    }

    /// Says what receiving needs next: nothing more, with the token of the
    /// buffered packet, or a read of up to so many bytes. A client that is
    /// not connected is left alone. A body that the buffer cannot hold
    /// faults the connection.
    pub fn recv(&mut self) -> (r: Result<Progress, RawError>)
        requires
            old(self).wf(),
        ensures
            final(self).wf(),
            !(old(self).net_state() is Connected) ==> {
                &&& r matches Err(e)
                &&& e == RawError::Disconnected
                &&& final(self).net_state() == old(self).net_state()
                &&& final(self).receiver() == old(self).receiver()
            },
            old(self).net_state() is Connected ==> match r {
                Ok(Progress::Ready(token)) => {
                    &&& ready(old(self).receiver())
                    &&& Some(token@) == old(self).receiver().header
                    &&& final(self).net_state() == old(self).net_state()
                    &&& final(self).receiver() == old(self).receiver()
                },
                Ok(Progress::Pending(n)) => {
                    &&& pending(old(self).receiver())
                    &&& n == want(old(self).receiver())
                    &&& n >= 1
                    &&& final(self).net_state() == old(self).net_state()
                    &&& final(self).receiver() == old(self).receiver()
                },
                Err(e) => {
                    &&& exceeded(old(self).receiver())
                    &&& e == RawError::RxBufferExceeded
                    &&& final(self).net_state() == closed_with(
                        old(self).net_state(),
                        Some(ReasonCode::ImplementationSpecificError),
                    )
                    &&& final(self).receiver() == initial(old(self).receiver().capacity)
                },
            },
    {
        if !self.n.is_ok() {
            return Err(RawError::Disconnected);
        }
        match self.receiver.poll() {
            Ok(progress) => Ok(progress),
            Err(e) => Err(self.handle_rx(e)),
        }
    }

    /// Takes the outcome of the read that `recv` asked for. An error is
    /// applied to the connection by its class before it is returned.
    pub fn recv_read(&mut self, read: Result<&[u8], ErrorKind>) -> (r: Result<(), RawError>)
        requires
            old(self).wf(),
            pending(old(self).receiver()),
            read matches Ok(chunk) ==> chunk@.len() <= want(old(self).receiver()),
        ensures
            final(self).wf(),
            final(self).receiver() == deliver(old(self).receiver(), spec_read(read)).0,
            match r {
                Ok(()) => {
                    &&& deliver(old(self).receiver(), spec_read(read)).1 is None
                    &&& final(self).net_state() == old(self).net_state()
                },
                Err(e) => {
                    &&& deliver(old(self).receiver(), spec_read(read)).1 matches Some(cause)
                    &&& e == classify_reader(cause).0
                    &&& final(self).net_state() == closed_with(
                        old(self).net_state(),
                        classify_reader(cause).1,
                    )
                },
            },
    {
        match self.receiver.advance(read) {
            Ok(()) => Ok(()),
            Err(e) => Err(self.handle_rx(e)),
        }
    }

    /// Whether `token` stands for the packet that is buffered now.
    pub fn holds(&self, token: &PacketDecodeToken) -> (b: bool)
        requires
            self.wf(),
        ensures
            b == (ready(self.receiver()) && self.receiver().header == Some(token@)),
    {
        self.receiver.holds(token)
    }

    /// Decodes the buffered packet as a `P` and makes the receiver ready for
    /// the next one. What `P` makes of the body is its own affair; an error
    /// of its decoding is applied to the connection by its class, and every
    /// such class leaves a reason code.
    pub fn decode<'p, P: RxPacket<'p>>(&'p mut self, token: PacketDecodeToken) -> (r: Result<
        (P, RawHandle<'p, N>),
        RawError,
    >)
        requires
            old(self).wf(),
            ready(old(self).receiver()),
            old(self).receiver().header == Some(token@),
        ensures
            final(self).wf(),
            final(self).receiver() == initial(old(self).receiver().capacity),
            match r {
                Ok((p, handle)) => *handle.n == old(self).net_state() && final(self).net_state()
                    == *final(handle.n),
                Err(e) => exists|cause: RxError|
                    e == classify_rx(cause).0 && final(self).net_state() == closed_with(
                        old(self).net_state(),
                        #[trigger] classify_rx(cause).1,
                    ),
            },
    {
        let decoder = self.receiver.into_decoder(token);
        match P::decode(decoder) {
            Ok(p) => Ok((p, RawHandle { n: &mut self.n })),
            Err(e) => {
                let (e, r) = <(RawError, Option<ReasonCode>)>::from(e);
                self.n.close_with(r);
                Err(e)
            },
        }
    }

    /// Ends a connection on which an error was seen. The connection is
    /// terminated; where it was faulted, the transport comes back together
    /// with the DISCONNECT packet that tells the server the reason.
    pub fn abort(&mut self) -> (r: Option<Farewell<N>>)
        requires
            !(old(self).net_state() is Connected),
        ensures
            final(self).net_state() is Terminated,
            final(self).receiver() == old(self).receiver(),
            final(self).wf() == old(self).wf(),
            r == farewell_of(old(self).net_state()),
    {
        let r = self.n.get_reason_code();
        let n = self.n.terminate();
        match (n, r) {
            (Some(net), Some(reason_code)) => Some(
                Farewell { net, packet: DisconnectPacket::new(reason_code) },
            ),
            (_, _) => None,
        }
    }

    /// The result of `abort` once the DISCONNECT packet was sent or failed
    /// to be. The packet is four bytes long, so its length can always be
    /// encoded.
    pub fn abort_sent(outcome: Result<(), TxError<ErrorKind>>) -> (r: Result<(), RawError>)
        requires
            !(outcome matches Err(TxError::RemainingLenExceeded)),
        ensures
            match outcome {
                Ok(()) => r is Ok,
                Err(e) => r == Err::<(), RawError>(farewell_error(e)),
            },
    {
        match outcome {
            Ok(()) => Ok(()),
            Err(TxError::Write(kind)) => Err(RawError::Network(kind)),
            Err(_) => Err(RawError::Network(ErrorKind::WriteZero)),
        }
    }
}

impl<'h, N> RawHandle<'h, N> {
    /// The connection state.
    pub fn state(&mut self) -> (s: &mut NetState<N>)
        ensures
            *s == *old(self).n,
            *final(self).n == *final(s),
    {
        &mut *self.n
    }
}
} // verus!
