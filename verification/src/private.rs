//! The seal on the set of transports.

use vstd::prelude::*;
use crate::binder::{Loopback, Tcp, Udp};

verus! {

/// Closes [`crate::binder::Reservable`] to the transports of this crate.
pub trait Sealed {}

impl<H: Loopback> Sealed for Udp<H> {}

impl<H: Loopback> Sealed for Tcp<H> {}

} // verus!
