use platform_mem::codec::{decode_u64s, encode_u64s};
use platform_mem::AsyncFileMem;
use std::path::{Path, PathBuf};
use tokio::io::AsyncWriteExt;

fn block_on<F: std::future::Future>(fut: F) -> F::Output {
    tokio::runtime::Builder::new_current_thread()
        .enable_all()
        .build()
        .unwrap()
        .block_on(fut)
}

/// Creates or truncates the file at `path` and hands back an empty block
/// pointed at it.
fn create<T>(path: &Path) -> AsyncFileMem<T> {
    block_on(async {
        tokio::fs::OpenOptions::new()
            .read(true)
            .write(true)
            .create(true)
            .truncate(true)
            .open(path)
            .await
            .unwrap();
    });
    AsyncFileMem::from_parts(Vec::new(), Some(path.to_path_buf()))
}

/// Loads the file's packed contents into a block pointed at it.
fn open(path: &Path) -> AsyncFileMem<u64> {
    let bytes = block_on(tokio::fs::read(path)).unwrap();
    AsyncFileMem::from_parts(decode_u64s(&bytes), Some(path.to_path_buf()))
}

/// Writes the block's packed contents over its file, requests durability,
/// and clears the dirty flag.
fn sync(mem: &mut AsyncFileMem<u64>) {
    let path: PathBuf = mem.path().clone().unwrap();
    let bytes = encode_u64s(mem.as_slice());
    block_on(async {
        let mut f = tokio::fs::OpenOptions::new()
            .write(true)
            .create(true)
            .truncate(true)
            .open(&path)
            .await
            .unwrap();
        f.write_all(&bytes).await.unwrap();
        f.sync_all().await.unwrap();
    });
    mem.mark_clean();
}

#[test]
fn test_async_file_mem_create_and_grow() {
    let dir = tempfile::tempdir().unwrap();
    let path = dir.path().join("test.bin");

    let mut mem: AsyncFileMem<u64> = create(&path);
    assert!(mem.is_empty());

    mem.grow_filled(10, 42).unwrap();
    assert_eq!(mem.len(), 10);
    assert_eq!(mem.get(0), Some(42));

    sync(&mut mem);
}

#[test]
fn test_async_file_mem_persistence() {
    let dir = tempfile::tempdir().unwrap();
    let path = dir.path().join("persist.bin");

    // Write data
    {
        let mut mem: AsyncFileMem<u64> = create(&path);
        mem.grow_filled(5, 123).unwrap();
        mem.set(2, 456);
        sync(&mut mem);
    }

    // Read data back
    {
        let mem = open(&path);
        assert_eq!(mem.len(), 5);
        assert_eq!(mem.get(0), Some(123));
        assert_eq!(mem.get(2), Some(456));
    }
}

#[test]
fn test_async_file_mem_temp() {
    let dir = tempfile::tempdir().unwrap();
    let path = dir.path().join("temp.bin");
    let mut mem: AsyncFileMem<u32> = create(&path);
    mem.grow_filled(100, 0).unwrap();
    assert_eq!(mem.len(), 100);
}

#[test]
fn test_async_file_mem_shrink() {
    let dir = tempfile::tempdir().unwrap();
    let path = dir.path().join("shrink.bin");
    let mut mem: AsyncFileMem<u64> = create(&path);
    mem.grow_filled(20, 1).unwrap();
    assert_eq!(mem.len(), 20);

    mem.shrink(5).unwrap();
    assert_eq!(mem.len(), 15);
}

#[test]
fn test_async_file_mem_grow_zeroed() {
    let dir = tempfile::tempdir().unwrap();
    let path = dir.path().join("zeroed.bin");
    let mut mem: AsyncFileMem<u64> = create(&path);
    mem.grow_zeroed(10).unwrap();
    assert_eq!(mem.len(), 10);
    for i in 0..10 {
        assert_eq!(mem.get(i), Some(0));
    }
}

#[test]
fn test_async_file_mem_slice_access() {
    let dir = tempfile::tempdir().unwrap();
    let path = dir.path().join("slice.bin");
    let mut mem: AsyncFileMem<u64> = create(&path);
    mem.grow_filled(5, 0).unwrap();

    // Modify through slice
    {
        let slice = mem.as_slice_mut();
        slice[0] = 100;
        slice[4] = 400;
    }

    assert_eq!(mem.get(0), Some(100));
    assert_eq!(mem.get(4), Some(400));
    assert!(mem.is_dirty());
}

#[test]
fn test_async_file_mem_grow_from_slice() {
    let dir = tempfile::tempdir().unwrap();
    let path = dir.path().join("from_slice.bin");
    let mut mem: AsyncFileMem<u64> = create(&path);
    let data = [1u64, 2, 3, 4, 5];
    mem.grow_from_slice(&data).unwrap();

    assert_eq!(mem.len(), 5);
    assert_eq!(mem.as_slice(), &data);
}

#[test]
fn test_async_file_mem_multiple_grows() {
    let dir = tempfile::tempdir().unwrap();
    let path = dir.path().join("multi.bin");
    let mut mem: AsyncFileMem<u64> = create(&path);

    mem.grow_filled(5, 1).unwrap();
    mem.grow_filled(5, 2).unwrap();
    mem.grow_filled(5, 3).unwrap();

    assert_eq!(mem.len(), 15);
    assert_eq!(mem.get(0), Some(1));
    assert_eq!(mem.get(5), Some(2));
    assert_eq!(mem.get(10), Some(3));
}

#[test]
fn async_dirty_tracking() {
    let dir = tempfile::tempdir().unwrap();
    let path = dir.path().join("dirty.bin");
    let mut mem: AsyncFileMem<u64> = create(&path);
    assert!(!mem.is_dirty());

    mem.grow_filled(3, 9).unwrap();
    assert!(mem.is_dirty());
    sync(&mut mem);
    assert!(!mem.is_dirty());

    mem.set(1, 5).unwrap();
    assert!(mem.is_dirty());
    sync(&mut mem);
    assert!(!mem.is_dirty());

    mem.as_slice_mut()[0] = 8;
    assert!(mem.is_dirty());

    mem.shrink(1).unwrap();
    assert!(mem.is_dirty());

    mem.grow_zeroed(2).unwrap();
    assert!(mem.is_dirty());
    sync(&mut mem);
    assert!(!mem.is_dirty());
}

#[test]
fn async_drop_without_sync_leaves_file() {
    let dir = tempfile::tempdir().unwrap();
    let path = dir.path().join("unsynced.bin");

    {
        let mut mem: AsyncFileMem<u64> = create(&path);
        mem.grow_filled(4, 11).unwrap();
        sync(&mut mem);
    }

    // Mutate and drop without syncing: the file must keep the synced state.
    {
        let mut mem = open(&path);
        mem.set(0, 99).unwrap();
        mem.grow_filled(4, 77).unwrap();
        assert!(mem.is_dirty());
    }

    let mem = open(&path);
    assert_eq!(mem.len(), 4);
    assert_eq!(mem.as_slice(), &[11u64, 11, 11, 11]);
}

#[test]
fn async_set_and_get_out_of_range() {
    let dir = tempfile::tempdir().unwrap();
    let path = dir.path().join("range.bin");
    let mut mem: AsyncFileMem<u64> = create(&path);
    mem.grow_filled(2, 1).unwrap();

    assert_eq!(mem.set(2, 5), None);
    assert_eq!(mem.get(2), None);
    assert_eq!(mem.set(1, 5), Some(()));
    assert_eq!(mem.get(1), Some(5));
}

#[test]
fn async_capacity_overflow() {
    let dir = tempfile::tempdir().unwrap();
    let path = dir.path().join("overflow.bin");
    let mut mem: AsyncFileMem<u64> = create(&path);
    let r = mem.grow_filled(usize::MAX, 0);
    assert!(matches!(r, Err(platform_mem::Error::CapacityOverflow)));
    assert!(!mem.is_dirty());
}
