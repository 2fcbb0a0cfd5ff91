use vstd::prelude::*;

use crate::error::RioError;
use crate::event::{RIOEvent, RIOPoll};
use crate::iocp::IOCP;

verus! {

/// How a completion queue tells its owner that completions are ready.
#[derive(Clone, Copy, Debug, PartialEq, Eq, Structural)]
pub enum Completion {
    /// Notifications go to the completion port `port` under the tag `key`.
    IOCP { port: u64, key: u64 },
    /// Notifications set the event object `event`.
    Event(u64),
    /// No notification: the owner polls by hand.
    Manual,
}

/// What the owner must ask of the kernel to wait for a completion.
#[derive(Clone, Copy, Debug, PartialEq, Eq, Structural)]
pub enum WaitAction {
    /// Arm the queue's single notification, then block on the port.
    NotifyThenWaitPort(u64),
    /// Arm the queue's single notification; it fires once and then disarms.
    NotifyOnly,
}

/// The count the kernel returns from a dequeue on a corrupted ring.
pub const RIO_CORRUPT_CQ: u32 = 0xffff_ffff;

/// A fixed-capacity ring of completion slots and its reservation count.
#[derive(Debug)]
pub struct RIOCompletionQueue {
    handle: u64,
    capacity: usize,
    alloc: usize,
    completion: Completion,
}

impl RIOCompletionQueue {
    /// Capacity of queues made without an explicit size.
    pub const DEFAULT_QUEUE_SIZE: usize = 1024;

    /// The largest capacity the kernel accepts.
    pub const MAX_SIZE: usize = 0x800_0000;

    pub closed spec fn spec_handle(&self) -> u64 {
        self.handle
    }

    pub closed spec fn spec_capacity(&self) -> nat {
        self.capacity as nat
    }

    pub closed spec fn spec_allocated(&self) -> nat {
        self.alloc as nat
    }

    pub closed spec fn spec_completion(&self) -> Completion {
        self.completion
    }

    /// A valid handle, and reservations within a capacity within the ceiling.
    pub open spec fn wf(&self) -> bool {
        &&& self.spec_handle() != 0
        &&& self.spec_allocated() <= self.spec_capacity()
        &&& self.spec_capacity() <= Self::MAX_SIZE
    }

    /// Two queues that agree on handle, capacity, reservations and
    /// notification are the same value.
    pub proof fn lemma_same_state(a: RIOCompletionQueue, b: RIOCompletionQueue)
        requires
            a.spec_handle() == b.spec_handle(),
            a.spec_capacity() == b.spec_capacity(),
            a.spec_allocated() == b.spec_allocated(),
            a.spec_completion() == b.spec_completion(),
        ensures
            a == b,
    {
    }

    /// The check made before asking the kernel for a queue of `size` slots.
    pub fn check_capacity(size: usize) -> (r: Result<(), RioError>)
        ensures
            r is Ok <==> size <= Self::MAX_SIZE,
            r is Err ==> r == Err::<(), RioError>(RioError::LimitExceeded),
    {
        if size > Self::MAX_SIZE {
            Err(RioError::LimitExceeded)
        } else {
            Ok(())
        }
    }

    /// The queue, or the error, that creating a queue of `size` slots with
    /// notification `completion` gives for the kernel's answer `created`.
    pub open spec fn from_raw_spec(created: Result<u64, i32>, size: usize, completion: Completion) -> Result<
        RIOCompletionQueue,
        RioError,
    > {
        if size > Self::MAX_SIZE {
            Err(RioError::LimitExceeded)
        } else {
            match created {
                Ok(h) => if h == 0 {
                    Err(RioError::InvalidParameter)
                } else {
                    Ok(Self::spec_fresh(h, size, completion))
                },
                Err(c) => Err(RioError::Os(c)),
            }
        }
    }

    /// A queue with handle `h`, `size` slots, nothing reserved and
    /// notification `completion`.
    pub closed spec fn spec_fresh(h: u64, size: usize, completion: Completion) -> RIOCompletionQueue {
        RIOCompletionQueue { handle: h, capacity: size, alloc: 0, completion }
    }

    /// What a fresh queue looks like from outside.
    pub proof fn lemma_fresh(h: u64, size: usize, completion: Completion)
        requires
            h != 0,
            size <= Self::MAX_SIZE,
        ensures
            Self::spec_fresh(h, size, completion).wf(),
            Self::spec_fresh(h, size, completion).spec_handle() == h,
            Self::spec_fresh(h, size, completion).spec_capacity() == size,
            Self::spec_fresh(h, size, completion).spec_allocated() == 0,
            Self::spec_fresh(h, size, completion).spec_completion() == completion,
    {
    }

    /// Takes the outcome of the kernel's queue creation for `size` slots
    /// notified through `completion`: a handle, or the OS error code.
    pub fn from_raw(created: Result<u64, i32>, size: usize, completion: Completion) -> (r: Result<
        RIOCompletionQueue,
        RioError,
    >)
        ensures
            r == Self::from_raw_spec(created, size, completion),
            r matches Ok(q) ==> {
                &&& q.wf()
                &&& q.spec_handle() != 0
                &&& q.spec_capacity() == size
                &&& q.spec_allocated() == 0
                &&& q.spec_completion() == completion
            },
    {
        if size > Self::MAX_SIZE {
            return Err(RioError::LimitExceeded);
        }
        match created {
            Ok(h) => {
                if h == 0 {
                    Err(RioError::InvalidParameter)
                } else {
                    Ok(RIOCompletionQueue { handle: h, capacity: size, alloc: 0, completion })
                }
            },
            Err(c) => Err(RioError::Os(c)),
        }
    }

    /// A queue of the default size without notification, from the kernel's
    /// answer to creating it.
    pub fn new(created: Result<u64, i32>) -> (r: Result<RIOCompletionQueue, RioError>)
        ensures
            r == Self::from_raw_spec(created, Self::DEFAULT_QUEUE_SIZE, Completion::Manual),
    {
        Self::from_raw(created, Self::DEFAULT_QUEUE_SIZE, Completion::Manual)
    }

    /// A queue of `size` slots without notification, from the kernel's answer.
    pub fn with_capacity(created: Result<u64, i32>, size: usize) -> (r: Result<
        RIOCompletionQueue,
        RioError,
    >)
        ensures
            r == Self::from_raw_spec(created, size, Completion::Manual),
    {
        Self::from_raw(created, size, Completion::Manual)
    }

    /// A queue of `size` slots that notifies `iocp` under the tag `id`, from
    /// the kernel's answer to creating it.
    pub fn new_iocp(created: Result<u64, i32>, size: usize, iocp: &IOCP, id: u64) -> (r: Result<
        RIOCompletionQueue,
        RioError,
    >)
        ensures
            r == Self::from_raw_spec(
                created,
                size,
                Completion::IOCP { port: iocp.spec_handle(), key: id },
            ),
    {
        Self::from_raw(created, size, iocp.entry(id))
    }

    /// Event-backed notification is a recognised extension point that is not built.
    pub fn new_event(_size: u32) -> (r: Result<RIOCompletionQueue, RioError>)
        ensures
            r is Err && r->Err_0 == RioError::Unimplemented,
    {
        Err(RioError::Unimplemented)
    }

    /// Reserves `slots` slots; when they do not fit, nothing changes and the
    /// free slots are reported.
    pub fn allocate(&mut self, slots: usize) -> (r: Result<(), usize>)
        requires
            old(self).wf(),
        ensures
            final(self).wf(),
            final(self).spec_handle() == old(self).spec_handle(),
            final(self).spec_capacity() == old(self).spec_capacity(),
            final(self).spec_completion() == old(self).spec_completion(),
            r is Ok <==> old(self).spec_allocated() + slots <= old(self).spec_capacity(),
            match r {
                Ok(_) => final(self).spec_allocated() == old(self).spec_allocated() + slots,
                Err(free) => {
                    &&& free == old(self).spec_capacity() - old(self).spec_allocated()
                    &&& *final(self) == *old(self)
                },
            },
    {
        let free = self.capacity - self.alloc;
        if slots <= free {
            self.alloc = self.alloc + slots;
            Ok(())
        } else {
            Err(free)
        }
    }

    /// Releases `slots` reserved slots, stopping at zero.
    pub fn deallocate(&mut self, slots: usize)
        requires
            old(self).wf(),
        ensures
            final(self).wf(),
            final(self).spec_handle() == old(self).spec_handle(),
            final(self).spec_capacity() == old(self).spec_capacity(),
            final(self).spec_completion() == old(self).spec_completion(),
            final(self).spec_allocated() == if slots <= old(self).spec_allocated() {
                (old(self).spec_allocated() - slots) as nat
            } else {
                0
            },
    {
        self.alloc = self.alloc.saturating_sub(slots);
    }

    pub open spec fn resize_check(&self, new_cap: usize) -> Result<(), RioError> {
        if new_cap > Self::MAX_SIZE {
            Err(RioError::LimitExceeded)
        } else if self.spec_allocated() > new_cap {
            Err(RioError::InUse)
        } else {
            Ok(())
        }
    }

    /// The check made before asking the kernel to resize the ring: the new
    /// capacity stays within the ceiling and holds every reserved slot.
    pub fn check_resize(&self, new_cap: usize) -> (r: Result<(), RioError>)
        ensures
            r == self.resize_check(new_cap),
    {
        if new_cap > Self::MAX_SIZE {
            Err(RioError::LimitExceeded)
        } else if self.alloc > new_cap {
            Err(RioError::InUse)
        } else {
            Ok(())
        }
    }

    /// Resizes to `new_cap` given the kernel's answer to the resize request;
    /// the capacity changes only when the check passes and the kernel agreed.
    pub fn resize(&mut self, new_cap: usize, outcome: Result<(), i32>) -> (r: Result<(), RioError>)
        requires
            old(self).wf(),
        ensures
            final(self).wf(),
            final(self).spec_handle() == old(self).spec_handle(),
            final(self).spec_allocated() == old(self).spec_allocated(),
            final(self).spec_completion() == old(self).spec_completion(),
            old(self).resize_check(new_cap) is Err ==> r == old(self).resize_check(new_cap),
            old(self).resize_check(new_cap) is Ok ==> match outcome {
                Ok(_) => r is Ok,
                Err(c) => r == Err::<(), RioError>(RioError::Os(c)),
            },
            final(self).spec_capacity() == if r is Ok {
                new_cap as nat
            } else {
                old(self).spec_capacity()
            },
            r is Err ==> *final(self) == *old(self),
    {
        let checked = self.check_resize(new_cap);
        if checked.is_err() {
            return checked;
        }
        match outcome {
            Ok(_) => {
                self.capacity = new_cap;
                Ok(())
            },
            Err(c) => Err(RioError::Os(c)),
        }
    }

    /// Shrinks the capacity to the reserved slots given the kernel's answer;
    /// a queue that is already exact asks nothing and stays as it is.
    pub fn shrink_to_fit(&mut self, outcome: Result<(), i32>) -> (r: Result<(), RioError>)
        requires
            old(self).wf(),
        ensures
            final(self).wf(),
            final(self).spec_handle() == old(self).spec_handle(),
            final(self).spec_allocated() == old(self).spec_allocated(),
            final(self).spec_completion() == old(self).spec_completion(),
            old(self).spec_allocated() == old(self).spec_capacity() ==> r is Ok,
            old(self).spec_allocated() != old(self).spec_capacity() ==> match outcome {
                Ok(_) => r is Ok,
                Err(c) => r == Err::<(), RioError>(RioError::Os(c)),
            },
            final(self).spec_capacity() == if r is Ok {
                old(self).spec_allocated()
            } else {
                old(self).spec_capacity()
            },
            r is Err ==> *final(self) == *old(self),
    {
        if self.alloc == self.capacity {
            return Ok(());
        }
        match outcome {
            Ok(_) => {
                self.capacity = self.alloc;
                Ok(())
            },
            Err(c) => Err(RioError::Os(c)),
        }
    }

    pub fn handle(&self) -> (r: u64)
        ensures
            r == self.spec_handle(),
    {
        self.handle
    }

    pub fn capacity(&self) -> (r: usize)
        ensures
            r == self.spec_capacity(),
    {
        self.capacity
    }

    pub fn allocated(&self) -> (r: usize)
        ensures
            r == self.spec_allocated(),
    {
        self.alloc
    }

    pub fn completion(&self) -> (r: Completion)
        ensures
            r == self.spec_completion(),
    {
        self.completion
    }

    pub fn is_invalid(&self) -> (r: bool)
        ensures
            r == (self.spec_handle() == 0),
    {
        self.handle == 0
    }

    /// Reads the kernel's answer to a single dequeue: 0 means the ring was
    /// empty, 1 that `event` was filled in, anything else a corrupted ring.
    pub fn poll_result(&self, count: u32, event: RIOEvent) -> (r: Result<Option<RIOPoll>, RioError>)
        ensures
            r == if count == 0 {
                Ok::<Option<RIOPoll>, RioError>(None)
            } else if count == 1 {
                Ok(Some(event.spec_as_poll()))
            } else {
                Err(RioError::QueueCorrupted)
            },
    {
        if count == 0 {
            Ok(None)
        } else if count == 1 {
            Ok(Some(event.as_poll()))
        } else {
            Err(RioError::QueueCorrupted)
        }
    }

    /// Reads the kernel's answer to the dequeue made right after a completed
    /// wait: a record must be there, so an empty ring fails with
    /// `NothingQueued`.
    pub fn await_and_poll(&self, count: u32, event: RIOEvent) -> (r: Result<RIOPoll, RioError>)
        ensures
            r == if count == 0 {
                Err::<RIOPoll, RioError>(RioError::NothingQueued)
            } else if count == 1 {
                Ok(event.spec_as_poll())
            } else {
                Err(RioError::QueueCorrupted)
            },
    {
        match self.poll_result(count, event) {
            Ok(Some(p)) => Ok(p),
            Ok(None) => Err(RioError::NothingQueued),
            Err(e) => Err(e),
        }
    }

    /// Reads the kernel's answer to a batched dequeue into `events`: the
    /// first `count` records in delivery order, or a corrupted ring.
    pub fn mass_poll_result(&self, count: u32, events: &Vec<RIOEvent>) -> (r: Result<
        Vec<RIOPoll>,
        RioError,
    >)
        ensures
            count == RIO_CORRUPT_CQ ==> r == Err::<Vec<RIOPoll>, RioError>(RioError::QueueCorrupted),
            count != RIO_CORRUPT_CQ ==> r is Ok && {
                let k = if count as int <= events@.len() { count as int } else { events@.len() as int };
                r->Ok_0@ == events@.subrange(0, k).map_values(|e: RIOEvent| e.spec_as_poll())
            },
    {
        if count == RIO_CORRUPT_CQ {
            return Err(RioError::QueueCorrupted);
        }
        let k: usize = if (count as usize) <= events.len() { count as usize } else { events.len() };
        let mut out: Vec<RIOPoll> = Vec::new();
        let mut i: usize = 0;
        while i < k
            invariant
                i <= k,
                k <= events@.len(),
                out@ == events@.subrange(0, i as int).map_values(|e: RIOEvent| e.spec_as_poll()),
            decreases k - i,
        {
            out.push(events[i].as_poll());
            i += 1;
            assert(out@ =~= events@.subrange(0, i as int).map_values(|e: RIOEvent| e.spec_as_poll()));
        }
        Ok(out)
    }

    /// What waiting takes for each notification mode.
    pub open spec fn spec_wait_plan(&self) -> Result<WaitAction, RioError> {
        match self.spec_completion() {
            Completion::IOCP { port, key: _ } => Ok(WaitAction::NotifyThenWaitPort(port)),
            Completion::Manual => Ok(WaitAction::NotifyOnly),
            Completion::Event(_) => Err(RioError::Unimplemented),
        }
    }

    /// What to ask of the kernel to block until a dequeue yields a record.
    pub fn wait_plan(&self) -> (r: Result<WaitAction, RioError>)
        ensures
            r == self.spec_wait_plan(),
    {
        match self.completion {
            Completion::IOCP { port, key: _ } => Ok(WaitAction::NotifyThenWaitPort(port)),
            Completion::Manual => Ok(WaitAction::NotifyOnly),
            Completion::Event(_) => Err(RioError::Unimplemented),
        }
    }

    /// Reads the kernel's answer to arming the notification: 0 is success,
    /// anything else is the OS error code.
    pub fn notify_result(code: i32) -> (r: Result<(), RioError>)
        ensures
            r == if code == 0 {
                Ok::<(), RioError>(())
            } else {
                Err(RioError::Os(code))
            },
    {
        if code == 0 {
            Ok(())
        } else {
            Err(RioError::Os(code))
        }
    }
}

} // verus!
