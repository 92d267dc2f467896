use platform_mem::{ErasedMem, Global};

#[test]
fn box_dyn_erased_mem() {
    let mut mem: Box<dyn ErasedMem<Item = u64>> = Box::new(Global::<u64>::new());
    mem.grow_filled(5, 42).unwrap();
    assert_eq!(mem.allocated().len(), 5);
}

#[test]
fn box_dyn_erased_mem_sync() {
    let mut mem: Box<dyn ErasedMem<Item = u64> + Sync> = Box::new(Global::<u64>::new());
    mem.grow_filled(5, 42).unwrap();
    assert_eq!(mem.allocated().len(), 5);
}

#[test]
fn box_dyn_erased_mem_sync_send() {
    let mut mem: Box<dyn ErasedMem<Item = u64> + Sync + Send> = Box::new(Global::<u64>::new());
    mem.grow_filled(5, 42).unwrap();
    assert_eq!(mem.allocated().len(), 5);
}

#[test]
fn mutable_reference_as_erased_mem() {
    let mut inner = Global::<u64>::new();
    let mem: &mut Global<u64> = &mut inner;
    mem.grow_filled(5, 42).unwrap();
    assert_eq!(mem.allocated().len(), 5);
}

#[test]
fn erased_shrink() {
    let mut mem: Box<dyn ErasedMem<Item = u64>> = Box::new(Global::<u64>::new());
    mem.grow_filled(10, 42).unwrap();
    mem.shrink(5).unwrap();
    assert_eq!(mem.allocated().len(), 5);
}

#[test]
fn erased_size_hint() {
    let mem: Box<dyn ErasedMem<Item = u64>> = Box::new(Global::<u64>::new());
    assert_eq!(mem.size_hint(), None);
}

#[test]
fn erased_allocated_mut() {
    let mut mem: Box<dyn ErasedMem<Item = u64>> = Box::new(Global::<u64>::new());
    mem.grow_filled(5, 0).unwrap();
    mem.allocated_mut()[0] = 42;
    assert_eq!(mem.allocated()[0], 42);
}

#[test]
fn erased_grow_zeroed() {
    let mut mem: Box<dyn ErasedMem<Item = u64>> = Box::new(Global::<u64>::new());
    mem.grow_zeroed(4).unwrap();
    assert_eq!(mem.allocated(), &[0u64; 4]);
}
