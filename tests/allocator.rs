use fiv_net::{RIOBuffer, RioError};

fn fresh(size: usize) -> RIOBuffer {
    RIOBuffer::from_buf(vec![0u8; size], 7).unwrap()
}

#[test]
fn exhausted_after_split_reports_remainder() {
    let mut buf = fresh(4096);
    let first = buf.allocate(100).unwrap();
    assert_eq!(first.offset(), 0);
    assert_eq!(first.len(), 100);
    match buf.allocate(4096) {
        Err(e) => assert_eq!(e, RioError::AllocationExhausted(3996)),
        Ok(_) => panic!("the remainder cannot hold the whole region"),
    }
    let second = buf.allocate(3996).unwrap();
    assert_eq!(second.offset(), 100);
    assert_eq!(second.len(), 3996);
}

#[test]
fn whole_buffer_only_once() {
    let mut buf = fresh(4096);
    let whole = buf.alloc_whole().unwrap();
    assert_eq!(whole.offset(), 0);
    assert_eq!(whole.len(), 4096);
    assert!(buf.alloc_whole().is_none());
    assert_eq!(buf.allocate(1).unwrap_err(), RioError::AllocationExhausted(0));
}

#[test]
fn whole_buffer_refused_after_split() {
    let mut buf = fresh(4096);
    let _part = buf.allocate(10).unwrap();
    assert!(buf.alloc_whole().is_none());
}

#[test]
fn exact_fit_leases_without_carving() {
    let mut buf = fresh(4096);
    let _a = buf.allocate(1000).unwrap();
    assert_eq!(buf.node_count(), 3);
    let b = buf.allocate(3096).unwrap();
    assert_eq!(b.offset(), 1000);
    assert_eq!(buf.node_count(), 3);
}

#[test]
fn best_fit_prefers_the_smallest_free_leaf() {
    let mut buf = fresh(4096);
    let a = buf.allocate(100).unwrap();
    let b = buf.allocate(200).unwrap();
    assert_eq!(b.offset(), 100);
    let a_offset = a.offset();
    buf.release(a).unwrap();
    // Free leaves now: [0,100) and [300,4096); 50 fits best in the first.
    let c = buf.allocate(50).unwrap();
    assert_eq!(c.offset(), a_offset);
    assert_eq!(c.len(), 50);
}

#[test]
fn leaves_partition_the_region() {
    let mut buf = fresh(4096);
    let _a = buf.allocate(100).unwrap();
    let _b = buf.allocate(1000).unwrap();
    let _c = buf.allocate(7).unwrap();
    let mut leaves: Vec<(usize, usize)> = Vec::new();
    for i in 0..buf.node_count() {
        let n = buf.node(i);
        if !matches!(n.usage, fiv_net::Usage::Split(_, _)) {
            leaves.push((n.offset(), n.len()));
        }
    }
    leaves.sort();
    let mut next = 0;
    for (off, len) in leaves {
        assert_eq!(off, next);
        next = off + len;
    }
    assert_eq!(next, 4096);
}

#[test]
fn release_returns_space() {
    let mut buf = fresh(4096);
    let whole = buf.alloc_whole().unwrap();
    assert!(buf.release(whole).is_ok());
    assert!(buf.alloc_whole().is_some());
}

#[test]
fn release_refuses_a_foreign_slice() {
    let mut a = fresh(64);
    let mut b = RIOBuffer::from_buf(vec![0u8; 64], 8).unwrap();
    let s = a.alloc_whole().unwrap();
    let back = b.release(s).unwrap_err();
    assert_eq!(back.buffer_id(), 7);
    assert!(a.release(back).is_ok());
}

#[test]
fn registration_refusals() {
    assert_eq!(RIOBuffer::from_buf(vec![0u8; 16], 0).err(), Some(RioError::RegistrationFailed));
    let ok = RIOBuffer::from_buf(vec![0u8; 16], 3).unwrap();
    assert_eq!(ok.len(), 16);
    assert_eq!(ok.id(), 3);
}

#[test]
fn write_then_read_slice() {
    let mut buf = fresh(32);
    let _head = buf.allocate(8).unwrap();
    let s = buf.allocate(8).unwrap();
    let n = buf.write(&s, &[1, 2, 3, 4, 5, 6, 7, 8, 9, 10]);
    assert_eq!(n, 8);
    assert_eq!(buf.as_slice(&s), &[1, 2, 3, 4, 5, 6, 7, 8]);
    assert_eq!(buf.as_slice(&_head), &[0u8; 8]);
}
