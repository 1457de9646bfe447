//! The handle that keeps a bound port reserved.

use vstd::prelude::*;
use crate::binder::Bound;

verus! {

/// A port number together with the open resource that keeps it bound.
///
/// While the handle lives, the resource stays open, so nobody else on the
/// host can bind the port.
#[derive(Debug)]
pub struct ReservedPort<T> {
    number: u16,
    _res: T,
}

impl<T> View for ReservedPort<T> {
    type V = u16;

    /// The reserved port number.
    closed spec fn view(&self) -> u16 {
        self.number
    }
}

impl<T> ReservedPort<T> {
    /// The resource that holds the port.
    pub closed spec fn resource(&self) -> T {
        self._res
    }

    /// Wraps a fresh bind into the handle that keeps it.
    pub(crate) fn holding(bound: Bound<T>) -> (r: Self)
        ensures
            r@ == bound.port,
            r.resource() == bound.resource,
    {
        ReservedPort { number: bound.port, _res: bound.resource }
    }

    /// Takes the port number and releases its reservation.
    #[inline]
    pub fn take(self) -> (port: u16)
        ensures
            port == self.peek(),
    {
        self.number
    }

    /// What [`Self::peek`] returns: the reserved port number.
    pub open spec fn spec_peek(&self) -> u16 {
        self@
    }

    /// Returns the port number without releasing its reservation.
    #[inline]
    #[verifier::when_used_as_spec(spec_peek)]
    pub fn peek(&self) -> (port: u16)
        ensures
            port == self@,
    {
        self.number
    }
}

impl<T> AsRef<u16> for ReservedPort<T> {
    /// The port number, as [`ReservedPort::peek`] returns it, by reference.
    fn as_ref(&self) -> (port: &u16)
        ensures
            *port == self.peek(),
    {
        &self.number
    }
}

/// Taking a reservation gives the port number that peeking at it gave.
pub proof fn lemma_take_gives_peeked<T>(reserved: ReservedPort<T>, peeked: u16, taken: u16)
    requires
        call_ensures(ReservedPort::<T>::peek, (&reserved,), peeked),
        call_ensures(ReservedPort::<T>::take, (reserved,), taken),
    ensures
        taken == peeked,
{
}

} // verus!
