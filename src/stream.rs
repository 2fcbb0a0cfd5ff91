use vstd::prelude::*;

use crate::buffer::RIOBufferSlice;
use crate::comp_queue::{RIOCompletionQueue, WaitAction};
use crate::error::RioError;
use crate::event::{IOAlias, RIOEvent};
use crate::request_queue::{RIOIoOP, RequestQueue};

verus! {

/// A connection over one request queue and its two completion queues, with
/// at most one pending operation per direction.
#[derive(Debug)]
pub struct RegisteredTcpStream {
    queue: RequestQueue,
    send: RIOCompletionQueue,
    recv: RIOCompletionQueue,
    send_op: Option<RIOIoOP>,
    recv_op: Option<RIOIoOP>,
}

/// A per-connection sequence of resolution candidates tried in order; it
/// keeps the last failure so that it can be surfaced when none succeeds.
#[derive(Debug)]
pub struct ConnectAttempts {
    last: Option<RioError>,
}

impl ConnectAttempts {
    pub closed spec fn spec_last(&self) -> Option<RioError> {
        self.last
    }

    pub fn new() -> (r: ConnectAttempts)
        ensures
            r.spec_last() is None,
    {
        ConnectAttempts { last: None }
    }

    /// Notes that one candidate failed with `e`.
    pub fn failed(&mut self, e: RioError)
        ensures
            final(self).spec_last() == Some(e),
    {
        self.last = Some(e);
    }

    /// The error to surface once every candidate failed: the last one seen,
    /// or `NoAddresses` when resolution gave no candidate.
    pub fn finish(self) -> (r: RioError)
        ensures
            r == match self.spec_last() {
                Some(e) => e,
                None => RioError::NoAddresses,
            },
    {
        match self.last {
            Some(e) => e,
            None => RioError::NoAddresses,
        }
    }
}

/// What submitting `buf` in a direction answers, given whether an operation
/// of that direction is pending and the kernel's answer to the submission.
pub open spec fn submission(pending: bool, buf: RIOBufferSlice, outcome: Result<(), i32>) -> Result<
    (),
    (RioError, RIOBufferSlice),
> {
    if pending {
        Err((RioError::OperationAlreadyQueued, buf))
    } else {
        match outcome {
            Ok(_) => Ok(()),
            Err(c) => Err((RioError::SubmitFailed(c), buf)),
        }
    }
}

/// Direction exclusivity: while a read is pending, another read is refused
/// with `OperationAlreadyQueued` whatever the kernel would answer; once a
/// retrieval handed the pending read back, the direction is idle and a read
/// the kernel accepts is queued.
pub proof fn lemma_read_exclusive(
    s: RegisteredTcpStream,
    buf: RIOBufferSlice,
    outcome: Result<(), i32>,
    count: u32,
    event: RIOEvent,
    got: Result<Option<RIOIoOP>, RioError>,
    after: Option<RIOIoOP>,
)
    requires
        s.read_op() is Some,
        RegisteredTcpStream::retrieved(s.read_op(), count, event, got, after),
        got matches Ok(Some(_)),
    ensures
        submission(s.read_op() is Some, buf, outcome) == Err::<(), (RioError, RIOBufferSlice)>(
            (RioError::OperationAlreadyQueued, buf),
        ),
        outcome is Ok ==> submission(after is Some, buf, outcome) == Ok::<
            (),
            (RioError, RIOBufferSlice),
        >(()),
{
}

impl RegisteredTcpStream {
    /// Slots each direction reserves, and the capacity of each queue.
    pub const DEFAULT_QUEUE_SIZE: usize = 1024;

    /// Completion-port tag of the send queue.
    pub const SEND_KEY: u64 = 1;

    /// Completion-port tag of the receive queue.
    pub const RECV_KEY: u64 = 2;

    /// Operation tag of reads.
    pub const READ_ALIAS: IOAlias = 1;

    /// Operation tag of writes.
    pub const WRITE_ALIAS: IOAlias = 2;

    pub closed spec fn spec_queue(&self) -> RequestQueue {
        self.queue
    }

    pub closed spec fn spec_send(&self) -> RIOCompletionQueue {
        self.send
    }

    pub closed spec fn spec_recv(&self) -> RIOCompletionQueue {
        self.recv
    }

    pub closed spec fn read_op(&self) -> Option<RIOIoOP> {
        self.recv_op
    }

    pub closed spec fn write_op(&self) -> Option<RIOIoOP> {
        self.send_op
    }

    /// The request queue is bound to this stream's two queues and its
    /// reservations are held by them.
    pub open spec fn wf(&self) -> bool {
        &&& self.spec_queue().wf()
        &&& self.spec_send().wf()
        &&& self.spec_recv().wf()
        &&& self.spec_queue().send_handle() == self.spec_send().spec_handle()
        &&& self.spec_queue().recv_handle() == self.spec_recv().spec_handle()
        &&& self.spec_queue().send_size() <= self.spec_send().spec_allocated()
        &&& self.spec_queue().recv_size() <= self.spec_recv().spec_allocated()
    }

    /// The queues a stream is made of fit together.
    pub open spec fn parts_fit(
        queue: RequestQueue,
        send: RIOCompletionQueue,
        recv: RIOCompletionQueue,
    ) -> bool {
        &&& queue.wf()
        &&& send.wf()
        &&& recv.wf()
        &&& queue.send_handle() == send.spec_handle()
        &&& queue.recv_handle() == recv.spec_handle()
        &&& queue.send_size() <= send.spec_allocated()
        &&& queue.recv_size() <= recv.spec_allocated()
    }

    /// Builds an idle stream; parts that do not fit together are refused.
    pub fn from_parts(
        queue: RequestQueue,
        send: RIOCompletionQueue,
        recv: RIOCompletionQueue,
    ) -> (r: Result<RegisteredTcpStream, RioError>)
        requires
            send.wf(),
            recv.wf(),
        ensures
            r is Ok <==> Self::parts_fit(queue, send, recv),
            r is Err ==> r == Err::<RegisteredTcpStream, RioError>(RioError::InvalidParameter),
            r matches Ok(s) ==> {
                &&& s.wf()
                &&& s.spec_queue() == queue
                &&& s.spec_send() == send
                &&& s.spec_recv() == recv
                &&& s.read_op() is None
                &&& s.write_op() is None
            },
    {
        if queue.id() == 0 || queue.send_queue() == queue.recv_queue() || queue.send_queue()
            != send.handle() || queue.recv_queue() != recv.handle() || queue.send_slots()
            > send.allocated() || queue.recv_slots() > recv.allocated() {
            return Err(RioError::InvalidParameter);
        }
        Ok(RegisteredTcpStream { queue, send, recv, send_op: None, recv_op: None })
    }

    /// Queues a read into `buf` given the kernel's answer to the receive
    /// request. While a read is pending nothing is submitted and the slice
    /// comes back with `OperationAlreadyQueued`.
    pub fn add_read(&mut self, buf: RIOBufferSlice, outcome: Result<(), i32>) -> (r: Result<
        (),
        (RioError, RIOBufferSlice),
    >)
        requires
            old(self).wf(),
        ensures
            final(self).wf(),
            final(self).spec_queue() == old(self).spec_queue(),
            final(self).spec_send() == old(self).spec_send(),
            final(self).spec_recv() == old(self).spec_recv(),
            final(self).write_op() == old(self).write_op(),
            r == submission(old(self).read_op() is Some, buf, outcome),
            old(self).read_op() is Some ==> {
                &&& r == Err::<(), (RioError, RIOBufferSlice)>(
                    (RioError::OperationAlreadyQueued, buf),
                )
                &&& final(self).read_op() == old(self).read_op()
            },
            old(self).read_op() is None ==> match outcome {
                Ok(_) => {
                    &&& r is Ok
                    &&& final(self).read_op() matches Some(op) && op.spec_buffer() == buf
                        && op.spec_ioalias() == Self::READ_ALIAS && op.spec_len() == 0
                },
                Err(c) => {
                    &&& r == Err::<(), (RioError, RIOBufferSlice)>((RioError::SubmitFailed(c), buf))
                    &&& final(self).read_op() is None
                },
            },
    {
        if self.recv_op.is_some() {
            return Err((RioError::OperationAlreadyQueued, buf));
        }
        match self.queue.add_read(buf, Self::READ_ALIAS, outcome) {
            Ok(op) => {
                self.recv_op = Some(op);
                Ok(())
            },
            Err(e) => Err(e),
        }
    }

    /// Queues a write from `buf` given the kernel's answer to the send
    /// request. While a write is pending nothing is submitted and the slice
    /// comes back with `OperationAlreadyQueued`.
    pub fn add_write(&mut self, buf: RIOBufferSlice, outcome: Result<(), i32>) -> (r: Result<
        (),
        (RioError, RIOBufferSlice),
    >)
        requires
            old(self).wf(),
        ensures
            final(self).wf(),
            final(self).spec_queue() == old(self).spec_queue(),
            final(self).spec_send() == old(self).spec_send(),
            final(self).spec_recv() == old(self).spec_recv(),
            final(self).read_op() == old(self).read_op(),
            r == submission(old(self).write_op() is Some, buf, outcome),
            old(self).write_op() is Some ==> {
                &&& r == Err::<(), (RioError, RIOBufferSlice)>(
                    (RioError::OperationAlreadyQueued, buf),
                )
                &&& final(self).write_op() == old(self).write_op()
            },
            old(self).write_op() is None ==> match outcome {
                Ok(_) => {
                    &&& r is Ok
                    &&& final(self).write_op() matches Some(op) && op.spec_buffer() == buf
                        && op.spec_ioalias() == Self::WRITE_ALIAS && op.spec_len() == 0
                },
                Err(c) => {
                    &&& r == Err::<(), (RioError, RIOBufferSlice)>((RioError::SubmitFailed(c), buf))
                    &&& final(self).write_op() is None
                },
            },
    {
        if self.send_op.is_some() {
            return Err((RioError::OperationAlreadyQueued, buf));
        }
        match self.queue.add_write(buf, Self::WRITE_ALIAS, outcome) {
            Ok(op) => {
                self.send_op = Some(op);
                Ok(())
            },
            Err(e) => Err(e),
        }
    }

    pub fn has_read(&self) -> (r: bool)
        ensures
            r == self.read_op() is Some,
    {
        self.recv_op.is_some()
    }

    pub fn has_write(&self) -> (r: bool)
        ensures
            r == self.write_op() is Some,
    {
        self.send_op.is_some()
    }

    /// What to ask of the kernel to block until the pending read completes.
    pub fn read_wait_plan(&self) -> (r: Result<WaitAction, RioError>)
        ensures
            r == self.spec_recv().spec_wait_plan(),
    {
        self.recv.wait_plan()
    }

    /// What to ask of the kernel to block until the pending write completes.
    pub fn write_wait_plan(&self) -> (r: Result<WaitAction, RioError>)
        ensures
            r == self.spec_send().spec_wait_plan(),
    {
        self.send.wait_plan()
    }

    /// What a retrieval hands back for a pending operation `op`, given the
    /// kernel's answer (`count`, `event`) to a dequeue.
    pub open spec fn retrieved(
        op: Option<RIOIoOP>,
        count: u32,
        event: RIOEvent,
        r: Result<Option<RIOIoOP>, RioError>,
        after: Option<RIOIoOP>,
    ) -> bool {
        match op {
            None => r == Ok::<Option<RIOIoOP>, RioError>(None) && after is None,
            Some(p) => if count == 0 {
                r == Ok::<Option<RIOIoOP>, RioError>(None) && after == op
            } else if count == 1 {
                &&& after is None
                &&& r matches Ok(Some(done)) && done.spec_buffer() == p.spec_buffer()
                    && done.spec_ioalias() == p.spec_ioalias() && done.spec_len()
                    == event.bytes_transferred
            } else {
                r == Err::<Option<RIOIoOP>, RioError>(RioError::QueueCorrupted) && after == op
            },
        }
    }

    /// Retrieves the pending read given the kernel's answer to a dequeue on
    /// the receive queue: nothing when no read is pending or the ring was
    /// empty; otherwise the operation with the bytes transferred, and the
    /// read direction becomes idle.
    pub fn poll_read(&mut self, count: u32, event: RIOEvent) -> (r: Result<Option<RIOIoOP>, RioError>)
        requires
            old(self).wf(),
        ensures
            final(self).wf(),
            final(self).spec_queue() == old(self).spec_queue(),
            final(self).spec_send() == old(self).spec_send(),
            final(self).spec_recv() == old(self).spec_recv(),
            final(self).write_op() == old(self).write_op(),
            Self::retrieved(old(self).read_op(), count, event, r, final(self).read_op()),
    {
        if self.recv_op.is_none() {
            return Ok(None);
        }
        match self.recv.poll_result(count, event) {
            Err(e) => Err(e),
            Ok(None) => Ok(None),
            Ok(Some(p)) => {
                match self.recv_op.take() {
                    Some(op) => Ok(Some(RIOIoOP::completed(op, p.len))),
                    None => Ok(None),
                }
            },
        }
    }

    /// Retrieves the pending write given the kernel's answer to a dequeue on
    /// the send queue, as `poll_read` does for reads.
    pub fn poll_write(&mut self, count: u32, event: RIOEvent) -> (r: Result<Option<RIOIoOP>, RioError>)
        requires
            old(self).wf(),
        ensures
            final(self).wf(),
            final(self).spec_queue() == old(self).spec_queue(),
            final(self).spec_send() == old(self).spec_send(),
            final(self).spec_recv() == old(self).spec_recv(),
            final(self).read_op() == old(self).read_op(),
            Self::retrieved(old(self).write_op(), count, event, r, final(self).write_op()),
    {
        if self.send_op.is_none() {
            return Ok(None);
        }
        match self.send.poll_result(count, event) {
            Err(e) => Err(e),
            Ok(None) => Ok(None),
            Ok(Some(p)) => {
                match self.send_op.take() {
                    Some(op) => Ok(Some(RIOIoOP::completed(op, p.len))),
                    None => Ok(None),
                }
            },
        }
    }

    /// Retrieval after a completed wait: fails with `NothingQueued` when no
    /// read is pending or the ring was still empty.
    pub fn await_read_and_get(&mut self, count: u32, event: RIOEvent) -> (r: Result<RIOIoOP, RioError>)
        requires
            old(self).wf(),
        ensures
            final(self).wf(),
            final(self).spec_queue() == old(self).spec_queue(),
            final(self).spec_send() == old(self).spec_send(),
            final(self).spec_recv() == old(self).spec_recv(),
            final(self).write_op() == old(self).write_op(),
            exists|p: Result<Option<RIOIoOP>, RioError>|
                Self::retrieved(old(self).read_op(), count, event, p, final(self).read_op())
                    && r == match p {
                    Ok(Some(op)) => Ok::<RIOIoOP, RioError>(op),
                    Ok(None) => Err(RioError::NothingQueued),
                    Err(e) => Err(e),
                },
            r is Ok ==> final(self).read_op() is None,
    {
        let p = self.poll_read(count, event);
        match p {
            Ok(Some(op)) => Ok(op),
            Ok(None) => Err(RioError::NothingQueued),
            Err(e) => Err(e),
        }
    }

    /// Retrieval after a completed wait: fails with `NothingQueued` when no
    /// write is pending or the ring was still empty.
    pub fn await_write_and_get(&mut self, count: u32, event: RIOEvent) -> (r: Result<RIOIoOP, RioError>)
        requires
            old(self).wf(),
        ensures
            final(self).wf(),
            final(self).spec_queue() == old(self).spec_queue(),
            final(self).spec_send() == old(self).spec_send(),
            final(self).spec_recv() == old(self).spec_recv(),
            final(self).read_op() == old(self).read_op(),
            exists|p: Result<Option<RIOIoOP>, RioError>|
                Self::retrieved(old(self).write_op(), count, event, p, final(self).write_op())
                    && r == match p {
                    Ok(Some(op)) => Ok::<RIOIoOP, RioError>(op),
                    Ok(None) => Err(RioError::NothingQueued),
                    Err(e) => Err(e),
                },
            r is Ok ==> final(self).write_op() is None,
    {
        let p = self.poll_write(count, event);
        match p {
            Ok(Some(op)) => Ok(op),
            Ok(None) => Err(RioError::NothingQueued),
            Err(e) => Err(e),
        }
    }

    pub fn queue(&self) -> (r: &RequestQueue)
        ensures
            *r == self.spec_queue(),
    {
        &self.queue
    }

    pub fn send_queue(&self) -> (r: &RIOCompletionQueue)
        ensures
            *r == self.spec_send(),
    {
        &self.send
    }

    pub fn recv_queue(&self) -> (r: &RIOCompletionQueue)
        ensures
            *r == self.spec_recv(),
    {
        &self.recv
    }
}

} // verus!
