use datapool::clock::Timestamps;
use datapool::errors::PoolError;
use datapool::pool::PersistentPool;
use datapool::storage::{read_exact_at, write_exact_at, MemStorage, Storage};

fn u64_at(image: &[u8], off: usize) -> u64 {
    let mut x: u64 = 0;
    for i in (0..8).rev() {
        x = (x << 8) | image[off + i] as u64;
    }
    x
}

fn stamp(monotonic_s: u32, unix_s: u32, monotonic_ns: u64, unix_ns: u64) -> Timestamps {
    Timestamps { monotonic_s, unix_s, monotonic_ns, unix_ns }
}

#[test]
fn idempotent_flush_both_images_open_to_the_same_data() {
    let data: Vec<u8> = (0..8192u32).map(|i| (i * 7 % 256) as u8).collect();

    let storage = MemStorage::new(usize::MAX);
    let mut pool = PersistentPool::create(storage, 8192, 4).unwrap();
    pool.as_mut_slice().copy_from_slice(&data);
    pool.flush().unwrap();
    let first = pool.into_storage().into_bytes();

    let mut pool = PersistentPool::open(MemStorage::from_bytes(first.clone()), 8192, 4).unwrap();
    pool.flush().unwrap();
    let second = pool.into_storage().into_bytes();

    // Both images pass validation and hold the identical data region.
    let a = PersistentPool::open(MemStorage::from_bytes(first.clone()), 8192, 4).unwrap();
    let b = PersistentPool::open(MemStorage::from_bytes(second.clone()), 8192, 4).unwrap();
    assert_eq!(a.as_slice(), data.as_slice());
    assert_eq!(b.as_slice(), data.as_slice());
    assert_eq!(&first[4096..], &second[4096..]);

    // The headers agree on magic, version, user version and options.
    assert_eq!(&first[32..48], &second[32..48]);
    assert_eq!(&first[72..88], &second[72..88]);

    // The clocks moved on between the two flushes.
    let first_mono_ns = u64_at(&first, 56);
    let second_mono_ns = u64_at(&second, 56);
    let first_unix_ns = u64_at(&first, 64);
    let second_unix_ns = u64_at(&second, 64);
    assert!(first_mono_ns != second_mono_ns || first_unix_ns != second_unix_ns);
}

#[test]
fn flushes_at_equal_timestamps_leave_identical_images() {
    let data: Vec<u8> = (0..4096u32).map(|i| (i % 13) as u8).collect();
    let t = stamp(1, 2, 3, 4);

    let mut images: Vec<Vec<u8>> = Vec::new();
    for _ in 0..2 {
        let storage = MemStorage::new(usize::MAX);
        let mut pool = PersistentPool::create(storage, 4096, 9).unwrap();
        pool.as_mut_slice().copy_from_slice(&data);
        pool.flush_at(t).unwrap();
        images.push(pool.into_storage().into_bytes());
    }
    assert_eq!(images[0], images[1]);

    // And the stamped clock readings sit at their documented offsets.
    let image = &images[0];
    assert_eq!(&image[48..52], &1u32.to_le_bytes());
    assert_eq!(&image[52..56], &2u32.to_le_bytes());
    assert_eq!(&image[56..64], &3u64.to_le_bytes());
    assert_eq!(&image[64..72], &4u64.to_le_bytes());
}

#[test]
fn short_transfers_leave_the_same_image_as_full_transfers() {
    let data: Vec<u8> = (0..8192u32).map(|i| (i * 11 % 256) as u8).collect();
    let t = stamp(10, 20, 30, 40);

    let mut images: Vec<Vec<u8>> = Vec::new();
    for &max_transfer in &[usize::MAX, 4096, 100, 7, 1] {
        let storage = MemStorage::new(max_transfer);
        let mut pool = PersistentPool::create(storage, 8192, 1).unwrap();
        pool.as_mut_slice().copy_from_slice(&data);
        pool.flush_at(t).unwrap();
        images.push(pool.into_storage().into_bytes());
    }
    for image in &images[1..] {
        assert_eq!(image, &images[0]);
    }
}

#[test]
fn short_reads_reload_the_same_content() {
    let data: Vec<u8> = (0..8192u32).map(|i| (i * 3 % 256) as u8).collect();
    let storage = MemStorage::new(usize::MAX);
    let mut pool = PersistentPool::create(storage, 8192, 0).unwrap();
    pool.as_mut_slice().copy_from_slice(&data);
    pool.flush().unwrap();
    let image = pool.into_storage().into_bytes();

    for &max_transfer in &[usize::MAX, 4095, 9, 1] {
        let storage = MemStorage::from_bytes_bounded(image.clone(), max_transfer);
        let reopened = PersistentPool::open(storage, 8192, 0).unwrap();
        assert_eq!(reopened.as_slice(), data.as_slice());
    }
}

#[test]
fn exact_transfer_helpers_retry_until_complete() {
    let mut storage = MemStorage::new(3);
    storage.grow_to(64).unwrap();
    let data: Vec<u8> = (0..32u8).collect();
    write_exact_at(&mut storage, 10, &data).unwrap();
    let back = read_exact_at(&mut storage, 10, 32).unwrap();
    assert_eq!(back, data);
    let head = read_exact_at(&mut storage, 0, 10).unwrap();
    assert_eq!(head, vec![0u8; 10]);
    let tail = read_exact_at(&mut storage, 42, 22).unwrap();
    assert_eq!(tail, vec![0u8; 22]);
}

#[test]
fn failed_open_is_not_an_io_error_on_memory_storage() {
    let storage = MemStorage::new(usize::MAX);
    let mut pool = PersistentPool::create(storage, 4096, 0).unwrap();
    pool.flush().unwrap();
    let image = pool.into_storage().into_bytes();
    let r = PersistentPool::open(MemStorage::from_bytes(image), 4096, 1);
    assert!(!matches!(r, Err(PoolError::Io)));
}
