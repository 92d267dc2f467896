use platform_mem::raw_mem::{fill, fill_with, BlockLayout};
use platform_mem::{Alloc, Error, Global, RawMem, System};
use std::io;
use std::sync::atomic::{AtomicUsize, Ordering};
use std::sync::Arc;

// ============================================================================
// Alloc tests
// ============================================================================

#[test]
fn new_creates_empty_alloc() {
    let alloc: Alloc<u64> = Alloc::new();
    assert_eq!(alloc.allocated().len(), 0);
}

#[test]
fn allocated_returns_empty_slice_initially() {
    let alloc: Alloc<u32> = Alloc::new();
    assert!(alloc.allocated().is_empty());
}

#[test]
fn allocated_mut_returns_empty_slice_initially() {
    let mut alloc: Alloc<u32> = Alloc::new();
    assert!(alloc.allocated_mut().is_empty());
}

#[test]
fn grow_increases_capacity() {
    let mut alloc: Alloc<u64> = Alloc::new();
    alloc.grow_filled(10, 42).unwrap();
    assert_eq!(alloc.allocated().len(), 10);
    assert_eq!(alloc.allocated(), &[42u64; 10]);
}

#[test]
fn grow_capacity_overflow() {
    let mut alloc: Alloc<u64> = Alloc::new();
    let result = alloc.grow_filled(usize::MAX, 0);
    assert!(matches!(result, Err(Error::CapacityOverflow)));
}

#[test]
fn shrink_decreases_capacity() {
    let mut alloc: Alloc<u64> = Alloc::new();
    alloc.grow_filled(10, 42).unwrap();
    alloc.shrink(5).unwrap();
    assert_eq!(alloc.allocated().len(), 5);
}

#[test]
fn shrink_to_zero() {
    let mut alloc: Alloc<u64> = Alloc::new();
    alloc.grow_filled(10, 42).unwrap();
    alloc.shrink(10).unwrap();
    assert_eq!(alloc.allocated().len(), 0);
}

#[test]
fn shrink_on_empty_does_nothing() {
    let mut alloc: Alloc<u64> = Alloc::new();
    alloc.shrink(0).unwrap();
    assert_eq!(alloc.allocated().len(), 0);
}

#[test]
fn multiple_grows() {
    let mut alloc: Alloc<u64> = Alloc::new();
    alloc.grow_filled(5, 1).unwrap();
    alloc.grow_filled(5, 2).unwrap();
    alloc.grow_filled(5, 3).unwrap();
    assert_eq!(alloc.allocated().len(), 15);
    assert_eq!(&alloc.allocated()[..5], &[1, 1, 1, 1, 1]);
    assert_eq!(&alloc.allocated()[5..10], &[2, 2, 2, 2, 2]);
    assert_eq!(&alloc.allocated()[10..15], &[3, 3, 3, 3, 3]);
}

#[test]
fn drop_cleans_up_memory() {
    let mut alloc: Alloc<String> = Alloc::new();
    alloc.grow_filled(5, String::from("hello")).unwrap();
    // Drop should clean up allocated strings
}

#[test]
fn debug_format() {
    let alloc: Alloc<u64> = Alloc::new();
    let debug_str = format!("{:?}", alloc);
    assert!(debug_str.contains("Alloc"));
}

// ============================================================================
// Global/System allocator wrapper tests
// ============================================================================

#[test]
fn global_new() {
    let global: Global<u64> = Global::new();
    assert_eq!(global.allocated().len(), 0);
}

#[test]
fn global_default() {
    let global: Global<u64> = Global::default();
    assert_eq!(global.allocated().len(), 0);
}

#[test]
fn global_grow_and_shrink() {
    let mut global: Global<u64> = Global::new();
    global.grow_filled(10, 42).unwrap();
    assert_eq!(global.allocated().len(), 10);
    global.shrink(5).unwrap();
    assert_eq!(global.allocated().len(), 5);
}

#[test]
fn global_allocated_mut() {
    let mut global: Global<u64> = Global::new();
    global.grow_filled(5, 0).unwrap();
    global.allocated_mut()[0] = 42;
    assert_eq!(global.allocated()[0], 42);
}

#[test]
fn global_size_hint() {
    let global: Global<u64> = Global::new();
    assert_eq!(global.size_hint(), None);
}

#[test]
fn global_debug() {
    let global: Global<u64> = Global::new();
    let debug_str = format!("{:?}", global);
    assert!(debug_str.contains("Global"));
}

#[test]
fn system_new() {
    let system: System<u64> = System::new();
    assert_eq!(system.allocated().len(), 0);
}

#[test]
fn system_default() {
    let system: System<u64> = System::default();
    assert_eq!(system.allocated().len(), 0);
}

#[test]
fn system_grow_and_shrink() {
    let mut system: System<u64> = System::new();
    system.grow_filled(10, 42).unwrap();
    assert_eq!(system.allocated().len(), 10);
    system.shrink(5).unwrap();
    assert_eq!(system.allocated().len(), 5);
}

// ============================================================================
// RawMem trait method tests
// ============================================================================

#[test]
fn grow_zeroed() {
    let mut mem = Global::<u64>::new();
    mem.grow_zeroed(10).unwrap();
    assert_eq!(mem.allocated(), &[0u64; 10]);
}

#[test]
fn grow_with() {
    let mut mem = Global::<u64>::new();
    mem.grow_with(5, |i| i as u64 + 1).unwrap();
    assert_eq!(mem.allocated(), &[1, 2, 3, 4, 5]);
}

#[test]
fn grow_from_slice() {
    let mut mem = Global::<u64>::new();
    let slice = [1, 2, 3, 4, 5];
    mem.grow_from_slice(&slice).unwrap();
    assert_eq!(mem.allocated(), &slice);
}

#[test]
fn size_hint_returns_none() {
    let mem = Global::<u64>::new();
    assert_eq!(mem.size_hint(), None);
}

#[test]
fn for_globalg_test() {
    let mut mem = Global::new();
    mem.grow_filled(10, "lol".to_string()).unwrap();
    assert_eq!(mem.allocated().len(), 10);
    mem.shrink(10).unwrap();
    assert_eq!(mem.allocated().len(), 0);
}

#[test]
fn miri() {
    fn inner<M: RawMem>(mut mem: M, val: M::Item)
    where
        M::Item: Clone + PartialEq,
    {
        const GROW: usize = 10_000;

        for _ in 0..10 {
            mem.grow_filled(GROW, val.clone()).unwrap();
        }
        assert!(mem.allocated() == vec![val; GROW * 10]);

        for _ in 0..10 {
            mem.shrink(GROW).unwrap();
        }
        assert_eq!(mem.allocated().len(), 0);
    }

    let val = "foo".to_string();

    inner(Global::new(), val.clone());
    inner(System::new(), val);
}

// ============================================================================
// Error type tests
// ============================================================================

#[test]
fn error_display_capacity_overflow() {
    let err = Error::CapacityOverflow;
    assert!(err.message().contains("capacity"));
}

#[test]
fn error_display_overgrow() {
    let err = Error::OverAlloc { to_alloc: 100, available: 50 };
    let msg = err.message();
    assert!(msg.contains("100"));
    assert!(msg.contains("50"));
}

#[test]
fn error_display_alloc_error() {
    let layout = BlockLayout { size: 1024, align: 8 };
    let err = Error::AllocError { layout };
    assert!(err.message().contains("allocation"));
}

#[test]
fn error_display_system() {
    let io_err = io::Error::new(io::ErrorKind::Other, "test error");
    let err = Error::System(io_err);
    assert!(err.message().contains("test error"));
}

#[test]
fn error_debug() {
    let err = Error::CapacityOverflow;
    let debug_str = format!("{:?}", err);
    assert!(debug_str.contains("CapacityOverflow"));
}

// ============================================================================
// Initializer strategy tests
// ============================================================================

#[test]
fn fill_initializes_slice() {
    let mut data: Vec<u64> = vec![0; 5];
    fill(&mut data, 42);
    for item in data.iter() {
        assert_eq!(*item, 42);
    }
}

#[test]
fn fill_with_initializes_slice() {
    let mut data: Vec<u64> = vec![0; 5];
    fill_with(&mut data, |i| i as u64 + 1);
    for (i, item) in data.iter().enumerate() {
        assert_eq!(*item, (i + 1) as u64);
    }
}

#[test]
fn fill_empty_slice() {
    let mut data: Vec<u64> = Vec::new();
    fill(&mut data, 42);
}

#[test]
fn fill_with_empty_slice() {
    let mut data: Vec<u64> = Vec::new();
    fill_with(&mut data, |_| 42);
}

#[test]
fn fill_single_element() {
    let mut data: Vec<u64> = vec![0; 1];
    fill(&mut data, 42);
    assert_eq!(data[0], 42);
}

// ============================================================================
// Ledger behaviour through the heap backend
// ============================================================================

#[test]
fn raw_place_through_alloc() {
    let mut alloc = Global::<u64>::new();

    assert_eq!(alloc.allocated().len(), 0);

    alloc.grow_filled(10, 42).unwrap();
    assert_eq!(alloc.allocated().len(), 10);

    alloc.shrink(5).unwrap();
    assert_eq!(alloc.allocated().len(), 5);

    alloc.grow_filled(5, 0).unwrap();
    assert_eq!(alloc.allocated().len(), 10);
}

// ============================================================================
// Thread safety tests
// ============================================================================

fn assert_send<T: Send>() {}
fn assert_sync<T: Sync>() {}

#[test]
fn global_is_send_sync() {
    assert_send::<Global<u64>>();
    assert_sync::<Global<u64>>();
}

#[test]
fn system_is_send_sync() {
    assert_send::<System<u64>>();
    assert_sync::<System<u64>>();
}

#[test]
fn alloc_is_send_sync() {
    assert_send::<Alloc<u64>>();
    assert_sync::<Alloc<u64>>();
}

// ============================================================================
// Drop with complex types tests
// ============================================================================

#[test]
fn drop_with_arc() {
    let counter = Arc::new(AtomicUsize::new(0));

    {
        let mut mem = Global::<Arc<AtomicUsize>>::new();
        for _ in 0..5 {
            let c = counter.clone();
            c.fetch_add(1, Ordering::SeqCst);
            mem.grow_filled(1, c).unwrap();
        }
        // 5 clones in the block + 1 original
        assert!(Arc::strong_count(&counter) > 1);
    }

    // After drop, only the original should remain
    assert_eq!(Arc::strong_count(&counter), 1);
}

#[test]
fn shrink_drops_elements() {
    let counter = Arc::new(AtomicUsize::new(0));
    let mut mem = Global::<Arc<AtomicUsize>>::new();

    for _ in 0..10 {
        let c = counter.clone();
        mem.grow_filled(1, c).unwrap();
    }

    let before_shrink = Arc::strong_count(&counter);
    mem.shrink(5).unwrap();
    let after_shrink = Arc::strong_count(&counter);

    // Should have dropped 5 references
    assert_eq!(before_shrink - after_shrink, 5);
}

// ============================================================================
// Edge case tests
// ============================================================================

#[test]
fn grow_zero_elements() {
    let mut mem = Global::<u64>::new();
    mem.grow_filled(0, 42).unwrap();
    assert_eq!(mem.allocated().len(), 0);
}

#[test]
fn shrink_zero_elements() {
    let mut mem = Global::<u64>::new();
    mem.grow_filled(10, 42).unwrap();
    mem.shrink(0).unwrap();
    assert_eq!(mem.allocated().len(), 10);
}

#[test]
fn grow_from_empty_slice() {
    let mut mem = Global::<u64>::new();
    let empty: [u64; 0] = [];
    mem.grow_from_slice(&empty).unwrap();
    assert_eq!(mem.allocated().len(), 0);
}

#[test]
fn allocated_modification() {
    let mut mem = Global::<u64>::new();
    mem.grow_filled(5, 0).unwrap();

    for (i, elem) in mem.allocated_mut().iter_mut().enumerate() {
        *elem = i as u64;
    }

    assert_eq!(mem.allocated(), &[0, 1, 2, 3, 4]);
}

#[test]
fn large_allocation() {
    let mut mem = Global::<u8>::new();
    mem.grow_filled(1_000_000, 0).unwrap();
    assert_eq!(mem.allocated().len(), 1_000_000);
}
