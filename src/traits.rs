use vstd::prelude::*;

use crate::error::RioError;
use crate::socket::FivSocket;

verus! {

/// Transport of a server connection.
#[derive(Clone, Copy, Debug, PartialEq, Eq, Structural)]
pub enum Protocol {
    UDP,
    TLS,
    TCP,
}

/// Timeout of a kernel wait, in milliseconds.
pub type OSTimeout = u32;

/// A source of completions that can be waited on.
pub trait Wait {
    type Output;

    /// Waits at most `timeout`; nothing when it expired.
    fn wait(&self, timeout: OSTimeout) -> Option<Self::Output>;

    /// Waits without a bound.
    fn wait_for(&self) -> Self::Output;
}

/// A source of completions that is polled, one dequeue per poll.
pub trait AsyncIO {
    type Output;

    fn poll(&mut self) -> Result<Option<Self::Output>, RioError>;

    fn await_cmpl(&self) -> Result<(), RioError>;
}

/// Marker of the stream kinds a socket can carry.
pub trait WinStream {
}

/// Conversion of a socket into a stream kind.
pub trait TryFromSock: Sized {
    fn try_from_sock(sock: FivSocket) -> Result<Self, NetConvError>;
}

/// Why a socket cannot become a stream.
#[derive(Clone, Copy, Debug, PartialEq, Eq, Structural)]
pub enum NetConvError {
    IsBound,
    NotCapable,
}

/// Whether an event object resets itself after releasing a waiter.
#[derive(Clone, Copy, Debug, PartialEq, Eq, Structural)]
pub enum Reset {
    Automatic,
    Manual,
}

impl Reset {
    /// The flag the kernel takes: true for manual reset.
    pub fn as_bool(&self) -> (r: bool)
        ensures
            r == (*self == Reset::Manual),
    {
        match self {
            Reset::Automatic => false,
            Reset::Manual => true,
        }
    }
}

/// Security attributes of a kernel object; the defaults are used.
#[derive(Clone, Copy, Debug, PartialEq, Eq, Structural)]
pub struct Security {}

} // verus!
