use vstd::prelude::*;

use crate::error::RioError;

verus! {

/// Transport protocol of a socket.
#[derive(Clone, Copy, Debug, PartialEq, Eq, Structural)]
pub enum LLProtocol {
    UDP,
    TCP,
}

impl LLProtocol {
    /// The socket type the kernel expects: stream for TCP, datagram for UDP.
    pub fn to_type(&self) -> (r: i32)
        ensures
            r == match self {
                LLProtocol::TCP => 1i32,
                LLProtocol::UDP => 2i32,
            },
    {
        match self {
            LLProtocol::TCP => 1,
            LLProtocol::UDP => 2,
        }
    }

    /// The protocol number the kernel expects; 0 lets it pick the default.
    pub fn to_proto(&self) -> (r: i32)
        ensures
            r == 0,
    {
        match self {
            LLProtocol::TCP | LLProtocol::UDP => 0,
        }
    }
}

/// Address family of a socket.
#[derive(Clone, Copy, Debug, PartialEq, Eq, Structural)]
pub enum AddrsFamily {
    IPV4,
    IPV6,
}

impl AddrsFamily {
    /// The family's code as the kernel numbers it.
    pub fn as_i32(&self) -> (r: i32)
        ensures
            r == match self {
                AddrsFamily::IPV4 => 2i32,
                AddrsFamily::IPV6 => 23i32,
            },
    {
        match self {
            AddrsFamily::IPV4 => 2,
            AddrsFamily::IPV6 => 23,
        }
    }
}

/// Which end of a connection a stream socket is.
#[derive(Clone, Copy, Debug, PartialEq, Eq, Structural)]
pub enum Direction {
    Host,
    Client,
}

impl Direction {
    pub const HOST: Direction = Direction::Host;

    pub const CLIENT: Direction = Direction::Client;

    pub fn is_host(&self) -> (r: bool)
        ensures
            r == (*self == Direction::Host),
    {
        match self {
            Direction::Host => true,
            Direction::Client => false,
        }
    }

    pub fn is_client(&self) -> (r: bool)
        ensures
            r == (*self == Direction::Client),
    {
        match self {
            Direction::Client => true,
            Direction::Host => false,
        }
    }
}

/// The role a bound socket plays.
#[derive(Clone, Copy, Debug, PartialEq, Eq, Structural)]
pub enum NAMEME1 {
    Listener,
    Stream(Direction),
}

impl NAMEME1 {
    pub fn is_listener(&self) -> (r: bool)
        ensures
            r == (*self == NAMEME1::Listener),
    {
        match self {
            NAMEME1::Listener => true,
            NAMEME1::Stream(_) => false,
        }
    }

    pub fn is_stream(&self) -> (r: bool)
        ensures
            r == (*self is Stream),
    {
        match self {
            NAMEME1::Stream(_) => true,
            NAMEME1::Listener => false,
        }
    }
}

/// Creation flag: the socket supports overlapped operations.
pub const OVERRLAPPED_CAPABLE: u32 = 1;

/// Creation flag: the handle is not inherited by child processes.
pub const NO_HANDLE_INHERIT: u32 = 128;

/// Creation flag: the socket supports registered I/O.
pub const RIO_CAPABLE: u32 = 256;

/// Kernel code for an invalid argument.
pub const WSAEINVAL: i32 = 10022;

/// Kernel code for a protocol of the wrong type.
pub const WSAEPROTOTYPE: i32 = 10041;

/// An OS socket with the capabilities it was created with.
#[derive(Debug)]
pub struct FivSocket {
    sock: u64,
    initflags: u32,
    family: AddrsFamily,
    proto: LLProtocol,
    nameme1: Option<NAMEME1>,
}

impl FivSocket {
    pub closed spec fn spec_sock(&self) -> u64 {
        self.sock
    }

    pub closed spec fn spec_flags(&self) -> u32 {
        self.initflags
    }

    pub closed spec fn spec_family(&self) -> AddrsFamily {
        self.family
    }

    pub closed spec fn spec_protocol(&self) -> LLProtocol {
        self.proto
    }

    pub closed spec fn spec_role(&self) -> Option<NAMEME1> {
        self.nameme1
    }

    /// The flags of the first creation attempt: the requested capabilities
    /// without handle inheritance.
    pub fn creation_flags(flags: u32) -> (r: u32)
        ensures
            r == flags | NO_HANDLE_INHERIT,
    {
        flags | NO_HANDLE_INHERIT
    }

    /// The flags of the fallback attempt after the first one failed with
    /// `code`: only an invalid-argument or wrong-protocol refusal is retried,
    /// with handle inheritance left on (it is switched off afterwards).
    pub fn retry_flags(code: i32, flags: u32) -> (r: Option<u32>)
        ensures
            r == if code == WSAEPROTOTYPE || code == WSAEINVAL {
                Some(flags & !NO_HANDLE_INHERIT)
            } else {
                None::<u32>
            },
    {
        if code == WSAEPROTOTYPE || code == WSAEINVAL {
            Some(flags & !NO_HANDLE_INHERIT)
        } else {
            None
        }
    }

    pub fn from_raw(
        socket: u64,
        flags: u32,
        protocol: LLProtocol,
        addrs_family: AddrsFamily,
        nameme1: Option<NAMEME1>,
    ) -> (r: FivSocket)
        ensures
            r.spec_sock() == socket,
            r.spec_flags() == flags,
            r.spec_protocol() == protocol,
            r.spec_family() == addrs_family,
            r.spec_role() == nameme1,
    {
        FivSocket { sock: socket, initflags: flags, family: addrs_family, proto: protocol, nameme1 }
    }

    pub fn protocol(&self) -> (r: LLProtocol)
        ensures
            r == self.spec_protocol(),
    {
        self.proto
    }

    pub fn is_tcp(&self) -> (r: bool)
        ensures
            r == (self.spec_protocol() == LLProtocol::TCP),
    {
        match self.proto {
            LLProtocol::TCP => true,
            LLProtocol::UDP => false,
        }
    }

    pub fn is_udp(&self) -> (r: bool)
        ensures
            r == (self.spec_protocol() == LLProtocol::UDP),
    {
        match self.proto {
            LLProtocol::UDP => true,
            LLProtocol::TCP => false,
        }
    }

    /// Whether the socket was given a role, by listening or connecting.
    pub fn is_bound(&self) -> (r: bool)
        ensures
            r == self.spec_role() is Some,
    {
        self.nameme1.is_some()
    }

    pub fn set_nameme1(&mut self, nameme1: NAMEME1)
        ensures
            final(self).spec_role() == Some(nameme1),
            final(self).spec_sock() == old(self).spec_sock(),
            final(self).spec_flags() == old(self).spec_flags(),
            final(self).spec_protocol() == old(self).spec_protocol(),
            final(self).spec_family() == old(self).spec_family(),
    {
        self.nameme1 = Some(nameme1);
    }

    /// Takes the kernel's answer to a listen request: 0 makes the socket a
    /// listener, anything else is the OS error code and changes nothing.
    pub fn listened(&mut self, code: i32) -> (r: Result<(), RioError>)
        ensures
            final(self).spec_sock() == old(self).spec_sock(),
            final(self).spec_flags() == old(self).spec_flags(),
            final(self).spec_protocol() == old(self).spec_protocol(),
            final(self).spec_family() == old(self).spec_family(),
            code == 0 ==> r is Ok && final(self).spec_role() == Some(NAMEME1::Listener),
            code != 0 ==> r == Err::<(), RioError>(RioError::Os(code)) && final(self).spec_role()
                == old(self).spec_role(),
    {
        if code == 0 {
            self.set_nameme1(NAMEME1::Listener);
            Ok(())
        } else {
            Err(RioError::Os(code))
        }
    }

    pub fn can_rio(&self) -> (r: bool)
        ensures
            r == (self.spec_flags() & RIO_CAPABLE != 0),
    {
        self.initflags & RIO_CAPABLE != 0
    }

    pub fn can_overlapped(&self) -> (r: bool)
        ensures
            r == (self.spec_flags() & OVERRLAPPED_CAPABLE != 0),
    {
        self.initflags & OVERRLAPPED_CAPABLE != 0
    }

    /// Completion-port use needs overlapped capability.
    pub fn can_iocp(&self) -> (r: bool)
        ensures
            r == (self.spec_flags() & OVERRLAPPED_CAPABLE != 0),
    {
        self.can_overlapped()
    }

    pub fn flags(&self) -> (r: u32)
        ensures
            r == self.spec_flags(),
    {
        self.initflags
    }

    pub fn family(&self) -> (r: AddrsFamily)
        ensures
            r == self.spec_family(),
    {
        self.family
    }

    /// The raw kernel handle.
    pub fn win_socket(&self) -> (r: u64)
        ensures
            r == self.spec_sock(),
    {
        self.sock
    }
}

} // verus!
