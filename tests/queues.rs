use fiv_net::{
    Completion, RIOBuffer, RIOCompletionQueue, RIOEvent, RegisteredTcpStream, RequestQueue,
    RioError, WaitAction,
};

fn queue(handle: u64, size: usize) -> RIOCompletionQueue {
    RIOCompletionQueue::from_raw(Ok(handle), size, Completion::Manual).unwrap()
}

#[test]
fn reservations_stay_within_capacity() {
    let mut q = queue(5, 10);
    assert!(q.allocate(6).is_ok());
    assert_eq!(q.allocate(5), Err(4));
    assert_eq!(q.allocated(), 6);
    q.deallocate(100);
    assert_eq!(q.allocated(), 0);
    assert!(q.allocate(10).is_ok());
    assert_eq!(q.allocated(), 10);
}

#[test]
fn resize_below_reserved_is_refused() {
    let mut q = queue(5, 10);
    q.allocate(8).unwrap();
    assert_eq!(q.resize(4, Ok(())), Err(RioError::InUse));
    assert_eq!(q.capacity(), 10);
    assert_eq!(q.resize(0x800_0001, Ok(())), Err(RioError::LimitExceeded));
    assert_eq!(q.resize(20, Err(87)), Err(RioError::Os(87)));
    assert_eq!(q.capacity(), 10);
    assert!(q.resize(20, Ok(())).is_ok());
    assert_eq!(q.capacity(), 20);
    assert!(q.shrink_to_fit(Ok(())).is_ok());
    assert_eq!(q.capacity(), 8);
}

#[test]
fn queue_creation_outcomes() {
    assert_eq!(RIOCompletionQueue::from_raw(Ok(0), 8, Completion::Manual).err(), Some(RioError::InvalidParameter));
    assert_eq!(RIOCompletionQueue::from_raw(Err(10055), 8, Completion::Manual).err(), Some(RioError::Os(10055)));
    assert_eq!(RIOCompletionQueue::from_raw(Ok(1), 0x800_0001, Completion::Manual).err(), Some(RioError::LimitExceeded));
    assert_eq!(RIOCompletionQueue::new_event(8).err(), Some(RioError::Unimplemented));
}

#[test]
fn poll_outcomes() {
    let q = queue(5, 10);
    let ev = RIOEvent { status: 0, bytes_transferred: 12, socket_context: 3, request_context: 4 };
    assert_eq!(q.poll_result(0, ev), Ok(None));
    let p = q.poll_result(1, ev).unwrap().unwrap();
    assert_eq!(p.len(), 12);
    assert_eq!(p.req_ctx, 4);
    assert_eq!(q.poll_result(0xffff_ffff, ev), Err(RioError::QueueCorrupted));
    let events = vec![ev, RIOEvent { bytes_transferred: 1, ..ev }, RIOEvent { bytes_transferred: 2, ..ev }];
    let got = q.mass_poll_result(2, &events).unwrap();
    assert_eq!(got.len(), 2);
    assert_eq!(got[0].len(), 12);
    assert_eq!(got[1].len(), 1);
    assert_eq!(q.mass_poll_result(0xffff_ffff, &events).err(), Some(RioError::QueueCorrupted));
}

#[test]
fn wait_plans_by_mode() {
    let manual = queue(5, 10);
    assert_eq!(manual.wait_plan(), Ok(WaitAction::NotifyOnly));
    let port = RIOCompletionQueue::from_raw(Ok(6), 10, Completion::IOCP { port: 77, key: 1 }).unwrap();
    assert_eq!(port.wait_plan(), Ok(WaitAction::NotifyThenWaitPort(77)));
    let event = RIOCompletionQueue::from_raw(Ok(7), 10, Completion::Event(3)).unwrap();
    assert_eq!(event.wait_plan(), Err(RioError::Unimplemented));
    assert_eq!(RIOCompletionQueue::notify_result(0), Ok(()));
    assert_eq!(RIOCompletionQueue::notify_result(10022), Err(RioError::Os(10022)));
}

#[test]
fn identical_queues_are_refused() {
    for cap in [0usize, 1, 1024] {
        let mut a = queue(9, cap);
        let mut b = queue(9, cap);
        assert_eq!(RequestQueue::reserve(&mut a, 1, &mut b, 1), Err(RioError::InvalidParameter));
        assert_eq!(a.allocated(), 0);
        assert_eq!(b.allocated(), 0);
    }
}

#[test]
fn failed_reservation_rolls_back() {
    let mut send = queue(1, 4);
    let mut recv = queue(2, 8);
    assert_eq!(RequestQueue::reserve(&mut send, 5, &mut recv, 8), Err(RioError::QueueFull(4)));
    assert_eq!(recv.allocated(), 0);
    assert_eq!(send.allocated(), 0);
    assert_eq!(RequestQueue::reserve(&mut send, 1, &mut recv, 9), Err(RioError::QueueFull(8)));
    assert!(RequestQueue::reserve(&mut send, 4, &mut recv, 8).is_ok());
    assert_eq!(send.allocated(), 4);
    assert_eq!(recv.allocated(), 8);
}

#[test]
fn bind_refusal_releases_reservations() {
    let mut send = queue(1, 4);
    let mut recv = queue(2, 8);
    RequestQueue::reserve(&mut send, 4, &mut recv, 8).unwrap();
    let e = RequestQueue::from_raw(Err(10045), 33, &mut send, 4, &mut recv, 8).unwrap_err();
    assert_eq!(e, RioError::BindFailed(10045));
    assert_eq!(send.allocated(), 0);
    assert_eq!(recv.allocated(), 0);
}

#[test]
fn request_queue_resizes_reservations() {
    let mut send = queue(1, 10);
    let mut recv = queue(2, 10);
    RequestQueue::reserve(&mut send, 4, &mut recv, 4).unwrap();
    let mut rq = RequestQueue::from_raw(Ok(50), 33, &mut send, 4, &mut recv, 4).unwrap();
    assert_eq!(rq.id(), 50);
    assert_eq!(rq.resize_send(&mut send, 12), Err(RioError::QueueFull(6)));
    assert_eq!(rq.send_slots(), 4);
    assert!(rq.resize_send(&mut send, 10).is_ok());
    assert_eq!(send.allocated(), 10);
    assert!(rq.resize_recv(&mut recv, 1).is_ok());
    assert_eq!(recv.allocated(), 1);
    assert_eq!(rq.recv_slots(), 1);
    assert!(rq.resize(&mut send, 2, &mut recv, 3).is_ok());
    assert_eq!((send.allocated(), recv.allocated()), (2, 3));
    assert_eq!(rq.add_read_ex(), Err(RioError::Unimplemented));
    assert_eq!(rq.add_write_ex(), Err(RioError::Unimplemented));
}

fn stream() -> RegisteredTcpStream {
    let size = RegisteredTcpStream::DEFAULT_QUEUE_SIZE;
    let mut send = RIOCompletionQueue::from_raw(Ok(11), size, Completion::IOCP { port: 5, key: 1 }).unwrap();
    let mut recv = RIOCompletionQueue::from_raw(Ok(12), size, Completion::IOCP { port: 5, key: 2 }).unwrap();
    RequestQueue::reserve(&mut send, size, &mut recv, size).unwrap();
    let rq = RequestQueue::from_raw(Ok(40), 99, &mut send, size, &mut recv, size).unwrap();
    RegisteredTcpStream::from_parts(rq, send, recv).unwrap()
}

#[test]
fn second_read_is_refused_until_retrieved() {
    let mut buf = RIOBuffer::from_buf(vec![0u8; 64], 1).unwrap();
    let a = buf.allocate(32).unwrap();
    let b = buf.allocate(32).unwrap();
    let mut s = stream();
    assert!(s.add_read(a, Ok(())).is_ok());
    assert!(s.has_read());
    let (e, b) = s.add_read(b, Ok(())).unwrap_err();
    assert_eq!(e, RioError::OperationAlreadyQueued);
    let ev = RIOEvent { status: 0, bytes_transferred: 5, socket_context: 0, request_context: 1 };
    let done = s.await_read_and_get(1, ev).unwrap();
    assert_eq!(done.len(), 5);
    assert!(!s.has_read());
    assert!(s.add_read(b, Ok(())).is_ok());
}

#[test]
fn retrieval_without_pending_read_fails() {
    let mut s = stream();
    let ev = RIOEvent::new();
    assert_eq!(s.await_read_and_get(1, ev).err(), Some(RioError::NothingQueued));
    assert!(s.poll_read(1, ev).unwrap().is_none());
}

#[test]
fn refused_submission_returns_the_slice() {
    let mut buf = RIOBuffer::from_buf(vec![0u8; 64], 1).unwrap();
    let a = buf.alloc_whole().unwrap();
    let mut s = stream();
    let (e, back) = s.add_write(a, Err(10057)).unwrap_err();
    assert_eq!(e, RioError::SubmitFailed(10057));
    assert!(!s.has_write());
    assert_eq!(back.len(), 64);
}

#[test]
fn round_trip_read() {
    let mut buf = RIOBuffer::from_buf(vec![0u8; 4096], 1).unwrap();
    let slice = buf.alloc_whole().unwrap();
    let mut s = stream();
    assert_eq!(s.read_wait_plan(), Ok(WaitAction::NotifyThenWaitPort(5)));
    s.add_read(slice, Ok(())).unwrap();
    assert_eq!(s.poll_read(0, RIOEvent::new()).unwrap().map(|op| op.len()), None);
    assert!(s.has_read());
    let ev = RIOEvent { status: 0, bytes_transferred: 3, socket_context: 0, request_context: 1 };
    let op = s.await_read_and_get(1, ev).unwrap();
    assert!(op.len() <= 4096);
    assert_eq!(op.len(), 3);
    assert_eq!(op.ioalias(), RegisteredTcpStream::READ_ALIAS);
    let bytes = op.as_slice(&buf);
    assert_eq!(&bytes[..op.len()], &[0, 0, 0]);
    let slice = op.buf();
    assert_eq!(slice.len(), 4096);
    assert!(buf.release(slice).is_ok());
}

#[test]
fn corrupted_ring_keeps_the_pending_write() {
    let mut buf = RIOBuffer::from_buf(vec![0u8; 64], 1).unwrap();
    let a = buf.alloc_whole().unwrap();
    let mut s = stream();
    s.add_write(a, Ok(())).unwrap();
    assert_eq!(s.poll_write(7, RIOEvent::new()).err(), Some(RioError::QueueCorrupted));
    assert!(s.has_write());
    let done = s.await_write_and_get(1, RIOEvent { bytes_transferred: 64, ..RIOEvent::new() }).unwrap();
    assert_eq!(done.len(), 64);
    assert_eq!(done.ioalias(), RegisteredTcpStream::WRITE_ALIAS);
}

#[test]
fn mismatched_parts_are_refused() {
    let a = queue(1, 8);
    let mut b = queue(2, 8);
    let mut c = queue(3, 8);
    RequestQueue::reserve(&mut b, 1, &mut c, 1).unwrap();
    let rq = RequestQueue::from_raw(Ok(40), 99, &mut b, 1, &mut c, 1).unwrap();
    assert_eq!(RegisteredTcpStream::from_parts(rq, a, c).err(), Some(RioError::InvalidParameter));
}

#[test]
fn closing_a_request_queue_releases_its_slots() {
    let mut send = queue(1, 10);
    let mut recv = queue(2, 10);
    RequestQueue::reserve(&mut send, 3, &mut recv, 7).unwrap();
    send.allocate(2).unwrap();
    let rq = RequestQueue::from_raw(Ok(50), 33, &mut send, 3, &mut recv, 7).unwrap();
    rq.close(&mut send, &mut recv);
    assert_eq!(send.allocated(), 2);
    assert_eq!(recv.allocated(), 0);
}

#[test]
fn port_backed_queue_creation() {
    let port = fiv_net::IOCP::from_raw(Ok(70)).unwrap();
    let q = RIOCompletionQueue::new_iocp(Ok(3), 64, &port, 2).unwrap();
    assert_eq!(q.completion(), Completion::IOCP { port: 70, key: 2 });
    assert_eq!(q.capacity(), 64);
    assert_eq!(fiv_net::IOCP::from_raw(Err(6)).err(), Some(RioError::Os(6)));
    let d = RIOCompletionQueue::new(Ok(4)).unwrap();
    assert_eq!(d.capacity(), RIOCompletionQueue::DEFAULT_QUEUE_SIZE);
    assert_eq!(d.completion(), Completion::Manual);
    assert_eq!(RIOCompletionQueue::with_capacity(Ok(4), 0x800_0001).err(), Some(RioError::LimitExceeded));
}

#[test]
fn port_dequeue_outcomes() {
    let port = fiv_net::IOCP::from_raw(Ok(70)).unwrap();
    assert_eq!(port.poll_result(Err(258)), Ok(None));
    assert_eq!(port.poll_result(Err(6)), Err(RioError::Os(6)));
    let p = port.poll_result(Ok((12, 2))).unwrap().unwrap();
    assert_eq!((p.id, p.len), (2, 12));
    let entries = vec![(1u64, 5u32), (2, 6), (3, 7)];
    let got = port.mass_poll_result(Ok(2), &entries).unwrap();
    assert_eq!(got.len(), 2);
    assert_eq!((got[1].id, got[1].len), (2, 6));
    assert!(port.mass_poll_result(Err(258), &entries).unwrap().is_empty());
}

#[test]
fn wait_then_poll_needs_a_record() {
    let q = queue(5, 10);
    let ev = RIOEvent { status: 0, bytes_transferred: 9, socket_context: 1, request_context: 2 };
    assert_eq!(q.await_and_poll(0, ev).err(), Some(RioError::NothingQueued));
    assert_eq!(q.await_and_poll(1, ev).unwrap().len(), 9);
    assert_eq!(q.await_and_poll(2, ev).err(), Some(RioError::QueueCorrupted));
}
