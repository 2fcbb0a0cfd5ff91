use vstd::prelude::*;

use crate::comp_queue::Completion;
use crate::error::RioError;

verus! {

/// The code a timed dequeue fails with when nothing arrived in time.
pub const WAIT_TIMEOUT: i32 = 258;

/// A completion port that aggregates notifications of many queues.
#[derive(Clone, Copy, Debug, PartialEq, Eq, Structural)]
pub struct IOCP {
    handle: u64,
}

/// One dequeued port notification: the tag it was registered under and the
/// bytes transferred.
#[derive(Clone, Copy, Debug, PartialEq, Eq, Structural)]
pub struct IOCPPoll {
    pub id: u64,
    pub len: usize,
}

impl IOCP {
    /// Worker threads the port allows; 0 lets the kernel choose.
    pub const THREADS: u32 = 0;

    pub closed spec fn spec_handle(&self) -> u64 {
        self.handle
    }

    /// Takes the kernel's answer to creating a port: a handle, or the OS code.
    pub fn from_raw(created: Result<u64, i32>) -> (r: Result<IOCP, RioError>)
        ensures
            match created {
                Ok(h) => if h == 0 {
                    r == Err::<IOCP, RioError>(RioError::InvalidParameter)
                } else {
                    r is Ok && r->Ok_0.spec_handle() == h
                },
                Err(c) => r == Err::<IOCP, RioError>(RioError::Os(c)),
            },
    {
        match created {
            Ok(h) => {
                if h == 0 {
                    Err(RioError::InvalidParameter)
                } else {
                    Ok(IOCP { handle: h })
                }
            },
            Err(c) => Err(RioError::Os(c)),
        }
    }

    pub fn handle(&self) -> (r: u64)
        ensures
            r == self.spec_handle(),
    {
        self.handle
    }

    /// The notification mode of a queue that reports to this port under `key`.
    pub fn entry(&self, key: u64) -> (r: Completion)
        ensures
            r == (Completion::IOCP { port: self.spec_handle(), key }),
    {
        Completion::IOCP { port: self.handle, key }
    }

    /// Reads the kernel's answer to a single dequeue: the byte count and tag
    /// of a notification, nothing when the wait timed out, else the OS code.
    pub fn poll_result(&self, outcome: Result<(u32, u64), i32>) -> (r: Result<Option<IOCPPoll>, RioError>)
        ensures
            r == match outcome {
                Ok((bytes, key)) => Ok::<Option<IOCPPoll>, RioError>(
                    Some(IOCPPoll { id: key, len: bytes as usize }),
                ),
                Err(c) => if c == WAIT_TIMEOUT {
                    Ok::<Option<IOCPPoll>, RioError>(None)
                } else {
                    Err(RioError::Os(c))
                },
            },
    {
        match outcome {
            Ok((bytes, key)) => Ok(Some(IOCPPoll { id: key, len: bytes as usize })),
            Err(c) => {
                if c == WAIT_TIMEOUT {
                    Ok(None)
                } else {
                    Err(RioError::Os(c))
                }
            },
        }
    }

    /// Reads the kernel's answer to a batched dequeue into `entries` (pairs of
    /// tag and byte count): the first `count` entries in delivery order,
    /// nothing when the wait timed out, else the OS code.
    pub fn mass_poll_result(&self, outcome: Result<u32, i32>, entries: &Vec<(u64, u32)>) -> (r:
        Result<Vec<IOCPPoll>, RioError>)
        ensures
            match outcome {
                Ok(count) => r is Ok && {
                    let k = if count as int <= entries@.len() {
                        count as int
                    } else {
                        entries@.len() as int
                    };
                    r->Ok_0@ == entries@.subrange(0, k).map_values(
                        |e: (u64, u32)| IOCPPoll { id: e.0, len: e.1 as usize },
                    )
                },
                Err(c) => if c == WAIT_TIMEOUT {
                    r is Ok && r->Ok_0@.len() == 0
                } else {
                    r == Err::<Vec<IOCPPoll>, RioError>(RioError::Os(c))
                },
            },
    {
        let count = match outcome {
            Ok(count) => count,
            Err(c) => {
                if c == WAIT_TIMEOUT {
                    return Ok(Vec::new());
                } else {
                    return Err(RioError::Os(c));
                }
            },
        };
        let k: usize = if (count as usize) <= entries.len() { count as usize } else { entries.len() };
        let mut out: Vec<IOCPPoll> = Vec::new();
        let mut i: usize = 0;
        while i < k
            invariant
                i <= k,
                k <= entries@.len(),
                out@ == entries@.subrange(0, i as int).map_values(
                    |e: (u64, u32)| IOCPPoll { id: e.0, len: e.1 as usize },
                ),
            decreases k - i,
        {
            let (key, bytes) = entries[i];
            out.push(IOCPPoll { id: key, len: bytes as usize });
            i += 1;
            assert(out@ =~= entries@.subrange(0, i as int).map_values(
                |e: (u64, u32)| IOCPPoll { id: e.0, len: e.1 as usize },
            ));
        }
        Ok(out)
    }
}

} // verus!
