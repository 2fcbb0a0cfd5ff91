use vstd::prelude::*;

verus! {

/// Caller-chosen tag that identifies a socket in completions.
pub type SocketAlias = u64;

/// Caller-chosen tag that identifies one operation in completions.
pub type IOAlias = u64;

/// One completion record as the kernel delivers it.
#[derive(Clone, Copy, Debug, PartialEq, Eq, Structural)]
pub struct RIOEvent {
    pub status: i32,
    pub bytes_transferred: u32,
    pub socket_context: u64,
    pub request_context: u64,
}

impl RIOEvent {
    /// An empty record: status 0, nothing transferred, zero tags.
    pub fn new() -> (r: RIOEvent)
        ensures
            r == (RIOEvent {
                status: 0,
                bytes_transferred: 0,
                socket_context: 0,
                request_context: 0,
            }),
    {
        RIOEvent { status: 0, bytes_transferred: 0, socket_context: 0, request_context: 0 }
    }

    pub fn is_ok(&self) -> (r: bool)
        ensures
            r == (self.status == 0),
    {
        self.status == 0
    }

    pub fn is_err(&self) -> (r: bool)
        ensures
            r == (self.status != 0),
    {
        self.status != 0
    }

    /// Whether any byte was transferred.
    pub fn is_some(&self) -> (r: bool)
        ensures
            r == (self.bytes_transferred != 0),
    {
        self.bytes_transferred != 0
    }

    pub fn status(&self) -> (r: i32)
        ensures
            r == self.status,
    {
        self.status
    }

    pub fn transfered(&self) -> (r: usize)
        ensures
            r == self.bytes_transferred,
    {
        self.bytes_transferred as usize
    }

    pub fn socket(&self) -> (r: SocketAlias)
        ensures
            r == self.socket_context,
    {
        self.socket_context
    }

    pub fn io_action(&self) -> (r: IOAlias)
        ensures
            r == self.request_context,
    {
        self.request_context
    }

    pub open spec fn spec_as_poll(&self) -> RIOPoll {
        RIOPoll {
            sock_ctx: self.socket_context,
            req_ctx: self.request_context,
            len: self.bytes_transferred as usize,
        }
    }

    /// The tags and byte count of the record.
    pub fn as_poll(&self) -> (r: RIOPoll)
        ensures
            r == self.spec_as_poll(),
    {
        RIOPoll::from_raw(self.socket_context, self.request_context, self.bytes_transferred as usize)
    }
}

/// What a completion tells its consumer: both tags and the bytes moved.
#[derive(Clone, Copy, Debug, PartialEq, Eq, Structural)]
pub struct RIOPoll {
    pub sock_ctx: SocketAlias,
    pub req_ctx: IOAlias,
    pub len: usize,
}

impl RIOPoll {
    pub fn from_raw(sock_cxt: u64, req_cxt: u64, len: usize) -> (r: RIOPoll)
        ensures
            r == (RIOPoll { sock_ctx: sock_cxt, req_ctx: req_cxt, len }),
    {
        RIOPoll { sock_ctx: sock_cxt, req_ctx: req_cxt, len }
    }

    pub fn len(&self) -> (r: usize)
        ensures
            r == self.len,
    {
        self.len
    }
}

} // verus!
