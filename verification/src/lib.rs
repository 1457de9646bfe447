//! Reservation of free loopback ports.
//!
//! An acquisition tries the candidates of a source in order, asking a
//! transport to bind each, and returns the first port that could be bound as
//! a handle that keeps it so. The sockets themselves belong to the host,
//! which the caller supplies as an implementation of [`Loopback`].

pub mod binder;
pub mod engine;
pub mod error;
pub mod ports;
mod private;
pub mod reservation;

pub use binder::{Bound, Loopback, Reservable, Tcp, Udp};
pub use engine::{reserve_port, reserve_tcp_port, reserve_udp_port};
pub use error::Error;
pub use ports::{PortList, ProvidePorts, Singleton};
pub use reservation::ReservedPort;
