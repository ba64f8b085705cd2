use datapool::errors::PoolError;
use datapool::pool::PersistentPool;
use datapool::storage::MemStorage;

fn patterned(len: usize, seed: u8) -> Vec<u8> {
    let mut v = Vec::with_capacity(len);
    for i in 0..len {
        v.push((seed as usize).wrapping_add(i.wrapping_mul(31)) as u8);
    }
    v
}

fn write_all(pool: &mut PersistentPool<MemStorage>, bytes: &[u8]) {
    let dst = pool.as_mut_slice();
    assert_eq!(dst.len(), bytes.len());
    dst.copy_from_slice(bytes);
}

#[test]
fn scenario_create_write_flush_open() {
    let storage = MemStorage::new(usize::MAX);
    let mut pool = PersistentPool::create(storage, 8192, 0).unwrap();
    assert_eq!(pool.len(), 8192);
    assert!(pool.as_slice().iter().all(|b| *b == 0));

    let slice = pool.as_mut_slice();
    slice[0] = 0xDE;
    slice[1] = 0xCA;
    slice[2] = 0xFB;
    slice[3] = 0xAD;
    pool.flush().unwrap();

    let image = pool.into_storage().into_bytes();
    let reopened = PersistentPool::open(MemStorage::from_bytes(image.clone()), 8192, 0).unwrap();
    assert_eq!(&reopened.as_slice()[0..4], &[0xDE, 0xCA, 0xFB, 0xAD]);
    assert_eq!(&reopened.as_slice()[4..8], &[0, 0, 0, 0]);

    let wrong_version = PersistentPool::open(MemStorage::from_bytes(image), 8192, 1);
    assert!(matches!(wrong_version, Err(PoolError::UserVersionMismatch)));
}

#[test]
fn round_trip_page_multiples_and_user_versions() {
    for &size in &[4096usize, 8192, 3 * 4096] {
        for &uv in &[0u64, 1, 42, u64::MAX] {
            let storage = MemStorage::new(usize::MAX);
            let mut pool = PersistentPool::create(storage, size, uv).unwrap();
            let data = patterned(size, (uv as u8).wrapping_add(size as u8));
            write_all(&mut pool, &data);
            pool.flush().unwrap();
            let image = pool.into_storage().into_bytes();
            let reopened =
                PersistentPool::open(MemStorage::from_bytes(image), size, uv).unwrap();
            assert_eq!(reopened.as_slice(), data.as_slice());
        }
    }
}

#[test]
fn round_trip_unaligned_size_pads_to_page() {
    let storage = MemStorage::new(usize::MAX);
    let mut pool = PersistentPool::create(storage, 100, 3).unwrap();
    let data = patterned(100, 9);
    write_all(&mut pool, &data);
    pool.flush().unwrap();
    let image = pool.into_storage().into_bytes();
    // One header page plus one page-rounded data page.
    assert_eq!(image.len(), 8192);
    let reopened = PersistentPool::open(MemStorage::from_bytes(image), 100, 3).unwrap();
    assert_eq!(reopened.as_slice(), data.as_slice());
}

#[test]
fn round_trip_empty_region() {
    let storage = MemStorage::new(usize::MAX);
    let mut pool = PersistentPool::create(storage, 0, 5).unwrap();
    pool.flush().unwrap();
    let image = pool.into_storage().into_bytes();
    assert_eq!(image.len(), 4096);
    let reopened = PersistentPool::open(MemStorage::from_bytes(image), 0, 5).unwrap();
    assert_eq!(reopened.len(), 0);
}

#[test]
fn create_leaves_zero_filled_backing() {
    let storage = MemStorage::new(usize::MAX);
    let pool = PersistentPool::create(storage, 4096, 0).unwrap();
    let image = pool.into_storage().into_bytes();
    assert_eq!(image.len(), 8192);
    assert!(image.iter().all(|b| *b == 0));
}

#[test]
fn open_before_first_flush_rejects_all_zero_header() {
    // A freshly created backing holds an all-zero header placeholder, which
    // does not carry the magic signature yet.
    let storage = MemStorage::new(usize::MAX);
    let pool = PersistentPool::create(storage, 4096, 0).unwrap();
    let image = pool.into_storage().into_bytes();
    let r = PersistentPool::open(MemStorage::from_bytes(image), 4096, 0);
    assert!(matches!(r, Err(PoolError::FormatMismatch)));
}

#[test]
fn determine_creates_then_opens() {
    let storage = MemStorage::new(usize::MAX);
    let mut pool = PersistentPool::determine(storage, false, 4096, 2).unwrap();
    let data = patterned(4096, 77);
    write_all(&mut pool, &data);
    pool.flush().unwrap();
    let image = pool.into_storage().into_bytes();
    let reopened =
        PersistentPool::determine(MemStorage::from_bytes(image), true, 4096, 2).unwrap();
    assert_eq!(reopened.as_slice(), data.as_slice());
    assert_eq!(reopened.user_version(), 2);
}

#[test]
fn size_gate_rejects_other_data_sizes() {
    let storage = MemStorage::new(usize::MAX);
    let mut pool = PersistentPool::create(storage, 8192, 0).unwrap();
    pool.flush().unwrap();
    let image = pool.into_storage().into_bytes();
    for &wrong in &[0usize, 4096, 12288, 16384] {
        let r = PersistentPool::open(MemStorage::from_bytes(image.clone()), wrong, 0);
        assert!(matches!(r, Err(PoolError::SizeMismatch)));
    }
    assert!(PersistentPool::open(MemStorage::from_bytes(image), 8192, 0).is_ok());
}

#[test]
fn user_version_gate_rejects_other_versions() {
    let storage = MemStorage::new(usize::MAX);
    let mut pool = PersistentPool::create(storage, 4096, 7).unwrap();
    let data = patterned(4096, 1);
    write_all(&mut pool, &data);
    pool.flush().unwrap();
    let image = pool.into_storage().into_bytes();
    for &wrong in &[0u64, 6, 8, u64::MAX] {
        let r = PersistentPool::open(MemStorage::from_bytes(image.clone()), 4096, wrong);
        assert!(matches!(r, Err(PoolError::UserVersionMismatch)));
    }
    assert!(PersistentPool::open(MemStorage::from_bytes(image), 4096, 7).is_ok());
}
