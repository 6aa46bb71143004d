use nukly::allocator::{create, Allocator, Error, ALIGNMENT, HEADER_WIDTH};

/// The handle the host publishes for the bridge in these tests; any nonzero
/// value stands for an installed bridge.
const HANDLE: u64 = 1;

#[test]
fn allocator() {
    let mut allocator = Allocator::new();

    let buffer = allocator.alloc_proxy(HANDLE, 1024);
    assert!(buffer != 0);
    assert_eq!(allocator.counters().alloc_count, 1);
    assert_eq!(allocator.counters().total_allocated_bytes, 1032);
    assert_eq!(allocator.counters().current_allocated_bytes, 1032);

    allocator.free_proxy(HANDLE, buffer);
    assert_eq!(allocator.counters().free_count, 1);
    assert_eq!(allocator.counters().current_allocated_bytes, 0);
}

#[test]
fn alloc_dealloc_scenario() {
    let mut a = create();
    let addr = a.allocate(1024).unwrap();
    let c = a.counters();
    assert_eq!(c.alloc_count, 1);
    assert_eq!(c.total_allocated_bytes, 1024 + HEADER_WIDTH);
    assert_eq!(c.current_allocated_bytes, 1032);
    assert!(a.dealloc(addr).is_ok());
    let c = a.counters();
    assert_eq!(c.free_count, 1);
    assert_eq!(c.current_allocated_bytes, 0);
    assert_eq!(c.total_allocated_bytes, 1032);
}

#[test]
fn recorded_size_covers_request_and_is_recovered() {
    let mut a = create();
    for size in [0u64, 1, 7, 8, 15, 16, 100, 4096] {
        let before = a.counters().current_allocated_bytes;
        let addr = a.allocate(size).unwrap();
        let recorded = a.counters().current_allocated_bytes - before;
        assert!(recorded >= size);
        assert_eq!(recorded, size + HEADER_WIDTH);
        assert!(a.dealloc(addr).is_ok());
        assert_eq!(a.counters().current_allocated_bytes, before);
    }
}

#[test]
fn dealloc_null_fails_and_keeps_counters() {
    let mut a = create();
    let _ = a.allocate(64).unwrap();
    let before = a.counters();
    let r = a.dealloc(0);
    assert_eq!(r, Err(Error::InvalidAddress));
    assert_eq!(a.counters(), before);
}

#[test]
fn dealloc_unknown_address_fails() {
    let mut a = create();
    let addr = a.allocate(64).unwrap();
    assert_eq!(a.dealloc(addr + ALIGNMENT), Err(Error::InvalidAddress));
    assert_eq!(a.dealloc(addr), Ok(()));
    // freeing the same block twice is always detected
    assert_eq!(a.dealloc(addr), Err(Error::InvalidAddress));
}

#[test]
fn alloc_overflow_is_invalid_size() {
    let mut a = create();
    let before = a.counters();
    assert_eq!(a.allocate(u64::MAX), Err(Error::InvalidSize));
    assert_eq!(a.allocate(u64::MAX - HEADER_WIDTH), Err(Error::InvalidSize));
    assert_eq!(a.counters(), before);
}

#[test]
fn counters_balance_live_blocks() {
    let mut a = create();
    let mut live = Vec::new();
    for size in [10u64, 20, 30, 40, 50] {
        live.push(a.allocate(size).unwrap());
    }
    let c = a.counters();
    assert_eq!(c.alloc_count - c.free_count, a.live_blocks() as u64);
    assert_eq!(a.live_blocks(), 5);
    // free them out of order
    for addr in [live[3], live[0], live[4], live[1], live[2]] {
        assert!(a.dealloc(addr).is_ok());
    }
    let c = a.counters();
    assert_eq!(c.alloc_count - c.free_count, 0);
    assert_eq!(a.live_blocks(), 0);
    assert_eq!(c.current_allocated_bytes, 0);
}

#[test]
fn proxies_degrade_to_sentinels() {
    let mut a = create();
    // a null handle means the bridge is not installed
    assert_eq!(a.alloc_proxy(0, 128), 0);
    assert_eq!(a.counters().alloc_count, 0);
    a.free_proxy(0, 24);
    assert_eq!(a.counters().free_count, 0);
    // an internal fault becomes the null sentinel instead of propagating
    assert_eq!(a.alloc_proxy(HANDLE, u64::MAX), 0);
    // an internal fault on free is a silent no-op
    a.free_proxy(HANDLE, 0);
    a.free_proxy(HANDLE, 12345);
    assert_eq!(a.counters().free_count, 0);
}

#[test]
fn error_messages() {
    assert_eq!(
        Error::Unknown.message(),
        "an unknown allocator error occurred"
    );
    assert_eq!(
        Error::InvalidAddress.message(),
        "an invalid address was provided to the allocator"
    );
    assert_eq!(
        Error::InvalidSize.message(),
        "an invalid size was provided to the allocator"
    );
}
