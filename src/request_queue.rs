use vstd::prelude::*;

use crate::buffer::{RIOBuffer, RIOBufferSlice};
use crate::comp_queue::RIOCompletionQueue;
use crate::error::RioError;
use crate::event::IOAlias;

verus! {

/// Buffers handed to the kernel per operation. Binding more than one per
/// operation is unsupported by this design.
pub const BUFFERS_PER_OPERATION: u32 = 1;

/// An operation submitted to the kernel, holding its slice until completion.
#[derive(Debug)]
pub struct RIOIoOP {
    ioalias: IOAlias,
    buffer: RIOBufferSlice,
    len: usize,
}

impl RIOIoOP {
    pub closed spec fn spec_ioalias(&self) -> IOAlias {
        self.ioalias
    }

    pub closed spec fn spec_buffer(&self) -> RIOBufferSlice {
        self.buffer
    }

    pub closed spec fn spec_len(&self) -> usize {
        self.len
    }

    /// Bytes the kernel reported as transferred; 0 until completion.
    pub fn len(&self) -> (r: usize)
        ensures
            r == self.spec_len(),
    {
        self.len
    }

    pub fn ioalias(&self) -> (r: IOAlias)
        ensures
            r == self.spec_ioalias(),
    {
        self.ioalias
    }

    /// The slice the operation was submitted with.
    pub fn slice(&self) -> (r: &RIOBufferSlice)
        ensures
            *r == self.spec_buffer(),
    {
        &self.buffer
    }

    /// The operation once the kernel reported `len` bytes transferred.
    pub fn completed(op: RIOIoOP, len: usize) -> (r: RIOIoOP)
        ensures
            r.spec_ioalias() == op.spec_ioalias(),
            r.spec_buffer() == op.spec_buffer(),
            r.spec_len() == len,
    {
        RIOIoOP { len, ..op }
    }

    /// Gives the slice back, ending the operation.
    pub fn buf(self) -> (r: RIOBufferSlice)
        ensures
            r == self.spec_buffer(),
    {
        self.buffer
    }

    /// The bytes of the operation's slice.
    pub fn as_slice<'a>(&self, buffer: &'a RIOBuffer) -> (r: &'a [u8])
        requires
            buffer.wf(),
            buffer.owns(&self.spec_buffer()),
        ensures
            r@ == buffer.spec_bytes().subrange(
                self.spec_buffer().spec_offset() as int,
                self.spec_buffer().spec_offset() + self.spec_buffer().spec_len(),
            ),
    {
        buffer.as_slice(&self.buffer)
    }
}

/// A socket bound to one send and one distinct receive completion queue,
/// with the slots it reserved on each.
#[derive(Debug)]
pub struct RequestQueue {
    id: u64,
    sock: u64,
    sendcq: u64,
    sendsize: usize,
    recvcq: u64,
    recvsize: usize,
}

/// Whether `n` more slots fit into `q`.
pub open spec fn has_room(q: RIOCompletionQueue, n: nat) -> bool {
    q.spec_allocated() + n <= q.spec_capacity()
}

/// `b` is `a` with `n` more slots reserved.
pub open spec fn reserved_more(a: RIOCompletionQueue, b: RIOCompletionQueue, n: nat) -> bool {
    &&& b.wf()
    &&& b.spec_handle() == a.spec_handle()
    &&& b.spec_capacity() == a.spec_capacity()
    &&& b.spec_completion() == a.spec_completion()
    &&& b.spec_allocated() == a.spec_allocated() + n
}

impl RequestQueue {
    pub closed spec fn spec_id(&self) -> u64 {
        self.id
    }

    pub closed spec fn spec_socket(&self) -> u64 {
        self.sock
    }

    pub closed spec fn send_handle(&self) -> u64 {
        self.sendcq
    }

    pub closed spec fn recv_handle(&self) -> u64 {
        self.recvcq
    }

    pub closed spec fn send_size(&self) -> nat {
        self.sendsize as nat
    }

    pub closed spec fn recv_size(&self) -> nat {
        self.recvsize as nat
    }

    /// A bound queue over two distinct completion queues.
    pub open spec fn wf(&self) -> bool {
        &&& self.spec_id() != 0
        &&& self.send_handle() != self.recv_handle()
    }

    /// The outcome that reserving `sendsize` on `send` and `recvsize` on
    /// `recv` has: queues must differ, then each must have room.
    pub open spec fn reserve_outcome(
        send: RIOCompletionQueue,
        sendsize: nat,
        recv: RIOCompletionQueue,
        recvsize: nat,
    ) -> Result<(), RioError> {
        if send.spec_handle() == recv.spec_handle() {
            Err(RioError::InvalidParameter)
        } else if !has_room(recv, recvsize) {
            Err(RioError::QueueFull((recv.spec_capacity() - recv.spec_allocated()) as usize))
        } else if !has_room(send, sendsize) {
            Err(RioError::QueueFull((send.spec_capacity() - send.spec_allocated()) as usize))
        } else {
            Ok(())
        }
    }

    /// Reserves the slots a new request queue needs on both completion
    /// queues. Identical queues are refused; a reservation that does not fit
    /// is refused and any partial reservation rolled back.
    pub fn reserve(
        send: &mut RIOCompletionQueue,
        sendsize: usize,
        recv: &mut RIOCompletionQueue,
        recvsize: usize,
    ) -> (r: Result<(), RioError>)
        requires
            old(send).wf(),
            old(recv).wf(),
        ensures
            r == Self::reserve_outcome(*old(send), sendsize as nat, *old(recv), recvsize as nat),
            r is Ok ==> reserved_more(*old(send), *final(send), sendsize as nat) && reserved_more(
                *old(recv),
                *final(recv),
                recvsize as nat,
            ),
            r is Err ==> *final(send) == *old(send) && *final(recv) == *old(recv),
    {
        if send.handle() == recv.handle() {
            return Err(RioError::InvalidParameter);
        }
        match recv.allocate(recvsize) {
            Err(free) => {
                return Err(RioError::QueueFull(free));
            },
            Ok(_) => {},
        }
        match send.allocate(sendsize) {
            Err(free) => {
                recv.deallocate(recvsize);
                proof {
                    RIOCompletionQueue::lemma_same_state(*old(recv), *recv);
                }
                Err(RioError::QueueFull(free))
            },
            Ok(_) => Ok(()),
        }
    }
    /// Finishes a request queue given the kernel's answer to binding `sock`
    /// to both completion queues (a queue handle, or the OS error code). On a
    /// refusal the reservations made by `reserve` are released again.
    pub fn from_raw(
        bound: Result<u64, i32>,
        sock: u64,
        send: &mut RIOCompletionQueue,
        sendsize: usize,
        recv: &mut RIOCompletionQueue,
        recvsize: usize,
    ) -> (r: Result<RequestQueue, RioError>)
        requires
            old(send).wf(),
            old(recv).wf(),
            old(send).spec_handle() != old(recv).spec_handle(),
            sendsize <= old(send).spec_allocated(),
            recvsize <= old(recv).spec_allocated(),
        ensures
            match r {
                Ok(q) => {
                    &&& q.wf()
                    &&& bound == Ok::<u64, i32>(q.spec_id())
                    &&& q.spec_socket() == sock
                    &&& q.send_handle() == old(send).spec_handle()
                    &&& q.recv_handle() == old(recv).spec_handle()
                    &&& q.send_size() == sendsize
                    &&& q.recv_size() == recvsize
                    &&& *final(send) == *old(send)
                    &&& *final(recv) == *old(recv)
                },
                Err(e) => {
                    &&& e == RioError::BindFailed(
                        match bound {
                            Ok(_) => 0,
                            Err(c) => c,
                        },
                    )
                    &&& bound matches Ok(h) ==> h == 0
                    &&& final(send).wf() && final(recv).wf()
                    &&& final(send).spec_handle() == old(send).spec_handle()
                    &&& final(send).spec_capacity() == old(send).spec_capacity()
                    &&& final(send).spec_completion() == old(send).spec_completion()
                    &&& final(send).spec_allocated() == old(send).spec_allocated() - sendsize
                    &&& final(recv).spec_handle() == old(recv).spec_handle()
                    &&& final(recv).spec_capacity() == old(recv).spec_capacity()
                    &&& final(recv).spec_completion() == old(recv).spec_completion()
                    &&& final(recv).spec_allocated() == old(recv).spec_allocated() - recvsize
                },
            },
    {
        let code: i32 = match bound {
            Ok(id) => {
                if id != 0 {
                    return Ok(
                        RequestQueue {
                            id,
                            sock,
                            sendcq: send.handle(),
                            sendsize,
                            recvcq: recv.handle(),
                            recvsize,
                        },
                    );
                }
                0
            },
            Err(c) => c,
        };
        send.deallocate(sendsize);
        recv.deallocate(recvsize);
        Err(RioError::BindFailed(code))
    }

    /// Moves the reservation on `cq` from `size` to `newsize`: growing needs
    /// room on the queue, shrinking always succeeds.
    fn resize_on(cq: &mut RIOCompletionQueue, size: usize, newsize: usize) -> (r: Result<(), RioError>)
        requires
            old(cq).wf(),
        ensures
            final(cq).wf(),
            final(cq).spec_handle() == old(cq).spec_handle(),
            final(cq).spec_capacity() == old(cq).spec_capacity(),
            final(cq).spec_completion() == old(cq).spec_completion(),
            Self::resized(*old(cq), *final(cq), size as nat, newsize as nat, r),
    {
        if size < newsize {
            match cq.allocate(newsize - size) {
                Ok(_) => Ok(()),
                Err(free) => Err(RioError::QueueFull(free)),
            }
        } else if size > newsize {
            cq.deallocate(size - newsize);
            Ok(())
        } else {
            Ok(())
        }
    }

    /// How moving a reservation from `size` to `newsize` changes a queue.
    pub open spec fn resized(
        before: RIOCompletionQueue,
        after: RIOCompletionQueue,
        size: nat,
        newsize: nat,
        r: Result<(), RioError>,
    ) -> bool {
        if size < newsize {
            if has_room(before, (newsize - size) as nat) {
                r is Ok && after.spec_allocated() == before.spec_allocated() + (newsize - size)
            } else {
                &&& r == Err::<(), RioError>(
                    RioError::QueueFull((before.spec_capacity() - before.spec_allocated()) as usize),
                )
                &&& after.spec_allocated() == before.spec_allocated()
            }
        } else {
            &&& r is Ok
            &&& after.spec_allocated() == if size - newsize <= before.spec_allocated() {
                (before.spec_allocated() - (size - newsize)) as nat
            } else {
                0
            }
        }
    }

    /// Changes the send reservation to `newsize` slots on `cq`, the queue's
    /// send completion queue; the recorded size follows on success.
    pub fn resize_send(&mut self, cq: &mut RIOCompletionQueue, newsize: usize) -> (r: Result<
        (),
        RioError,
    >)
        requires
            old(cq).wf(),
            old(cq).spec_handle() == old(self).send_handle(),
        ensures
            final(cq).wf(),
            final(cq).spec_handle() == old(cq).spec_handle(),
            final(cq).spec_capacity() == old(cq).spec_capacity(),
            final(cq).spec_completion() == old(cq).spec_completion(),
            Self::resized(*old(cq), *final(cq), old(self).send_size(), newsize as nat, r),
            final(self).send_size() == if r is Ok {
                newsize as nat
            } else {
                old(self).send_size()
            },
            final(self).spec_id() == old(self).spec_id(),
            final(self).spec_socket() == old(self).spec_socket(),
            final(self).send_handle() == old(self).send_handle(),
            final(self).recv_handle() == old(self).recv_handle(),
            final(self).recv_size() == old(self).recv_size(),
    {
        let r = Self::resize_on(cq, self.sendsize, newsize);
        if r.is_ok() {
            self.sendsize = newsize;
        }
        r
    }

    /// Changes the receive reservation to `newsize` slots on `cq`, the
    /// queue's receive completion queue; the recorded size follows on success.
    pub fn resize_recv(&mut self, cq: &mut RIOCompletionQueue, newsize: usize) -> (r: Result<
        (),
        RioError,
    >)
        requires
            old(cq).wf(),
            old(cq).spec_handle() == old(self).recv_handle(),
        ensures
            final(cq).wf(),
            final(cq).spec_handle() == old(cq).spec_handle(),
            final(cq).spec_capacity() == old(cq).spec_capacity(),
            final(cq).spec_completion() == old(cq).spec_completion(),
            Self::resized(*old(cq), *final(cq), old(self).recv_size(), newsize as nat, r),
            final(self).recv_size() == if r is Ok {
                newsize as nat
            } else {
                old(self).recv_size()
            },
            final(self).spec_id() == old(self).spec_id(),
            final(self).spec_socket() == old(self).spec_socket(),
            final(self).send_handle() == old(self).send_handle(),
            final(self).recv_handle() == old(self).recv_handle(),
            final(self).send_size() == old(self).send_size(),
    {
        let r = Self::resize_on(cq, self.recvsize, newsize);
        if r.is_ok() {
            self.recvsize = newsize;
        }
        r
    }

    /// Resizes the send reservation, then, if that succeeded, the receive one.
    pub fn resize(
        &mut self,
        send: &mut RIOCompletionQueue,
        sendsize: usize,
        recv: &mut RIOCompletionQueue,
        recvsize: usize,
    ) -> (r: Result<(), RioError>)
        requires
            old(send).wf(),
            old(recv).wf(),
            old(send).spec_handle() == old(self).send_handle(),
            old(recv).spec_handle() == old(self).recv_handle(),
        ensures
            final(send).wf(),
            final(recv).wf(),
            final(self).spec_id() == old(self).spec_id(),
            final(self).send_handle() == old(self).send_handle(),
            final(self).recv_handle() == old(self).recv_handle(),
            exists|rs: Result<(), RioError>|
                Self::resized(*old(send), *final(send), old(self).send_size(), sendsize as nat, rs)
                    && if rs is Err {
                    &&& r == rs
                    &&& *final(recv) == *old(recv)
                    &&& final(self).send_size() == old(self).send_size()
                    &&& final(self).recv_size() == old(self).recv_size()
                } else {
                    &&& final(self).send_size() == sendsize
                    &&& Self::resized(*old(recv), *final(recv), old(self).recv_size(), recvsize as nat, r)
                    &&& final(self).recv_size() == if r is Ok {
                        recvsize as nat
                    } else {
                        old(self).recv_size()
                    }
                },
    {
        let rs = self.resize_send(send, sendsize);
        if rs.is_err() {
            return rs;
        }
        self.resize_recv(recv, recvsize)
    }

    /// Records a receive submitted with `buf` under `alias`, given the
    /// kernel's answer; on a refusal the slice comes back with the OS code.
    pub fn add_read(&self, buf: RIOBufferSlice, alias: IOAlias, outcome: Result<(), i32>) -> (r:
        Result<RIOIoOP, (RioError, RIOBufferSlice)>)
        ensures
            Self::submitted(buf, alias, outcome, r),
    {
        Self::submit(buf, alias, outcome)
    }

    /// Records a send submitted with `buf` under `alias`, given the kernel's
    /// answer; on a refusal the slice comes back with the OS code.
    pub fn add_write(&self, buf: RIOBufferSlice, alias: IOAlias, outcome: Result<(), i32>) -> (r:
        Result<RIOIoOP, (RioError, RIOBufferSlice)>)
        ensures
            Self::submitted(buf, alias, outcome, r),
    {
        Self::submit(buf, alias, outcome)
    }

    /// The result of a submission of `buf` under `alias` with kernel answer `outcome`.
    pub open spec fn submitted(
        buf: RIOBufferSlice,
        alias: IOAlias,
        outcome: Result<(), i32>,
        r: Result<RIOIoOP, (RioError, RIOBufferSlice)>,
    ) -> bool {
        match outcome {
            Ok(_) => r matches Ok(op) && op.spec_ioalias() == alias && op.spec_buffer() == buf
                && op.spec_len() == 0,
            Err(c) => r == Err::<RIOIoOP, (RioError, RIOBufferSlice)>((RioError::SubmitFailed(c), buf)),
        }
    }

    fn submit(buf: RIOBufferSlice, alias: IOAlias, outcome: Result<(), i32>) -> (r: Result<
        RIOIoOP,
        (RioError, RIOBufferSlice),
    >)
        ensures
            Self::submitted(buf, alias, outcome, r),
    {
        match outcome {
            Ok(_) => Ok(RIOIoOP { ioalias: alias, buffer: buf, len: 0 }),
            Err(c) => Err((RioError::SubmitFailed(c), buf)),
        }
    }

    /// Scatter/gather receive is a recognised extension point that is not built.
    pub fn add_read_ex(&self) -> (r: Result<(), RioError>)
        ensures
            r == Err::<(), RioError>(RioError::Unimplemented),
    {
        Err(RioError::Unimplemented)
    }

    /// Scatter/gather send is a recognised extension point that is not built.
    pub fn add_write_ex(&self) -> (r: Result<(), RioError>)
        ensures
            r == Err::<(), RioError>(RioError::Unimplemented),
    {
        Err(RioError::Unimplemented)
    }

    pub fn id(&self) -> (r: u64)
        ensures
            r == self.spec_id(),
    {
        self.id
    }

    pub fn socket(&self) -> (r: u64)
        ensures
            r == self.spec_socket(),
    {
        self.sock
    }

    pub fn send_queue(&self) -> (r: u64)
        ensures
            r == self.send_handle(),
    {
        self.sendcq
    }

    pub fn recv_queue(&self) -> (r: u64)
        ensures
            r == self.recv_handle(),
    {
        self.recvcq
    }

    pub fn send_slots(&self) -> (r: usize)
        ensures
            r == self.send_size(),
    {
        self.sendsize
    }

    pub fn recv_slots(&self) -> (r: usize)
        ensures
            r == self.recv_size(),
    {
        self.recvsize
    }
    /// Closes the request queue, releasing its reservations on both of its
    /// completion queues.
    pub fn close(self, send: &mut RIOCompletionQueue, recv: &mut RIOCompletionQueue)
        requires
            old(send).wf(),
            old(recv).wf(),
            old(send).spec_handle() == self.send_handle(),
            old(recv).spec_handle() == self.recv_handle(),
        ensures
            final(send).wf(),
            final(recv).wf(),
            final(send).spec_handle() == old(send).spec_handle(),
            final(send).spec_capacity() == old(send).spec_capacity(),
            final(send).spec_completion() == old(send).spec_completion(),
            final(send).spec_allocated() == if self.send_size() <= old(send).spec_allocated() {
                (old(send).spec_allocated() - self.send_size()) as nat
            } else {
                0
            },
            final(recv).spec_handle() == old(recv).spec_handle(),
            final(recv).spec_capacity() == old(recv).spec_capacity(),
            final(recv).spec_completion() == old(recv).spec_completion(),
            final(recv).spec_allocated() == if self.recv_size() <= old(recv).spec_allocated() {
                (old(recv).spec_allocated() - self.recv_size()) as nat
            } else {
                0
            },
    {
        send.deallocate(self.sendsize);
        recv.deallocate(self.recvsize);
    }
}

} // verus!
