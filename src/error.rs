use vstd::prelude::*;

verus! {

/// The error taxonomy shared by the allocator, the queues and the stream.
#[derive(Clone, Copy, Debug, PartialEq, Eq, Structural)]
pub enum RioError {
    /// The kernel refused to register a memory region.
    RegistrationFailed,
    /// No free slice is large enough; carries the largest free size.
    AllocationExhausted(usize),
    /// A completion-queue reservation would exceed its capacity; carries the free slots.
    QueueFull(usize),
    /// A queue size beyond the hard ceiling was requested.
    LimitExceeded,
    /// A queue size below the currently reserved slots was requested.
    InUse,
    /// The kernel reported the completion ring as corrupted.
    QueueCorrupted,
    /// A structurally invalid call.
    InvalidParameter,
    /// The kernel rejected binding a socket to its queues.
    BindFailed(i32),
    /// The kernel rejected an operation submission.
    SubmitFailed(i32),
    /// An operation of the same direction is already pending.
    OperationAlreadyQueued,
    /// A completion was asked for while no operation was pending.
    NothingQueued,
    /// A recognised extension point that is not built.
    Unimplemented,
    /// Address resolution produced no candidate.
    NoAddresses,
    /// An operating-system error code passed through unchanged.
    Os(i32),
}

} // verus!
