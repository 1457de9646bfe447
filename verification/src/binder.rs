//! Binding a loopback port, for each of the two transports.

use vstd::prelude::*;
use core::marker::PhantomData;
use crate::private::Sealed;
use crate::reservation::ReservedPort;

verus! {

/// A successful bind: the open resource and the port the host assigned.
///
/// The assigned port is the requested one, except for the wildcard port 0,
/// for which the host picks a free port.
#[derive(Debug)]
pub struct Bound<R> {
    pub resource: R,
    pub port: u16,
}

/// The socket facility of a host, on its loopback interface.
///
/// Each method attempts one bind to the given port on 127.0.0.1. It returns
/// the bind when the host granted it, and `None` when the address is in use.
/// A bind that fails for any other reason is fatal: the method does not
/// return from it, so that no retry follows.
///
/// Nothing is assumed of what an implementation returns.
pub trait Loopback {
    /// The open UDP socket.
    type Udp;

    /// The open TCP listener.
    type Tcp;

    /// Binds a UDP socket.
    fn bind_udp(port: u16) -> Option<Bound<Self::Udp>>;

    /// Binds a TCP listener.
    fn bind_tcp(port: u16) -> Option<Bound<Self::Tcp>>;
}

/// A transport on which a port can be reserved. There are two: [`Udp`] and
/// [`Tcp`].
pub trait Reservable: Sealed {
    /// The resource that keeps a port of this transport bound.
    type Res;

    /// Attempts to reserve `port`: `None` when the port is in use.
    fn reserve(port: u16) -> Option<ReservedPort<Self::Res>>;
}

/// Whether an attempt to reserve `port` on the transport `T` can come to
/// `outcome`: a reservation, or `None` for a port that is in use.
pub open spec fn binds<T: Reservable>(port: u16, outcome: Option<ReservedPort<T::Res>>) -> bool {
    call_ensures(T::reserve, (port,), outcome)
}

/// Whether `port` is in use for the transport `T`: no attempt to reserve it
/// gives a reservation.
pub open spec fn in_use<T: Reservable>(port: u16) -> bool {
    forall|reserved: ReservedPort<T::Res>| !#[trigger] binds::<T>(port, Some(reserved))
}

/// Whether `port` is free for the transport `T`: no attempt to reserve it
/// finds it in use.
pub open spec fn free<T: Reservable>(port: u16) -> bool {
    !binds::<T>(port, None)
}

/// The bind that a reservation keeps: its resource and its port number.
pub open spec fn kept<R>(reserved: ReservedPort<R>) -> Bound<R> {
    Bound { resource: reserved.resource(), port: reserved.peek() }
}

/// UDP sockets of the host `H`.
#[derive(Debug)]
pub struct Udp<H>(PhantomData<H>);

/// TCP listeners of the host `H`.
#[derive(Debug)]
pub struct Tcp<H>(PhantomData<H>);

impl<H: Loopback> Reservable for Udp<H> {
    type Res = H::Udp;

    /// One UDP bind on the host; the reservation keeps what the bind gave.
    fn reserve(port: u16) -> (r: Option<ReservedPort<H::Udp>>)
        ensures
            match r {
                Some(reserved) => call_ensures(H::bind_udp, (port,), Some(kept(reserved))),
                None => call_ensures(H::bind_udp, (port,), None),
            },
    {
        match H::bind_udp(port) {
            Some(bound) => Some(ReservedPort::holding(bound)),
            None => None,
        }
    }
}

impl<H: Loopback> Reservable for Tcp<H> {
    type Res = H::Tcp;

    /// One TCP bind on the host; the reservation keeps what the bind gave.
    fn reserve(port: u16) -> (r: Option<ReservedPort<H::Tcp>>)
        ensures
            match r {
                Some(reserved) => call_ensures(H::bind_tcp, (port,), Some(kept(reserved))),
                None => call_ensures(H::bind_tcp, (port,), None),
            },
    {
        match H::bind_tcp(port) {
            Some(bound) => Some(ReservedPort::holding(bound)),
            None => None,
        }
    }
}

/// A UDP reservation keeps the socket and the port number of a bind that the
/// host granted for the port asked for.
pub proof fn lemma_udp_reservation_keeps_bind<H: Loopback>(
    port: u16,
    reserved: ReservedPort<H::Udp>,
)
    requires
        binds::<Udp<H>>(port, Some(reserved)),
    ensures
        call_ensures(H::bind_udp, (port,), Some(kept(reserved))),
{
}

/// A TCP reservation keeps the listener and the port number of a bind that
/// the host granted for the port asked for.
pub proof fn lemma_tcp_reservation_keeps_bind<H: Loopback>(
    port: u16,
    reserved: ReservedPort<H::Tcp>,
)
    requires
        binds::<Tcp<H>>(port, Some(reserved)),
    ensures
        call_ensures(H::bind_tcp, (port,), Some(kept(reserved))),
{
}

} // verus!
