use datapool::errors::PoolError;
use datapool::pool::PersistentPool;
use datapool::storage::MemStorage;

fn flushed_image(data: &[u8], user_version: u64) -> Vec<u8> {
    let storage = MemStorage::new(usize::MAX);
    let mut pool = PersistentPool::create(storage, data.len(), user_version).unwrap();
    pool.as_mut_slice().copy_from_slice(data);
    pool.flush().unwrap();
    pool.into_storage().into_bytes()
}

#[test]
fn flipping_any_byte_fails_the_next_open() {
    let data: Vec<u8> = (0..4096u32).map(|i| (i % 251) as u8).collect();
    let image = flushed_image(&data, 0);
    assert_eq!(image.len(), 8192);
    for idx in 0..image.len() {
        let mut corrupt = image.clone();
        corrupt[idx] ^= 0x01;
        let r = PersistentPool::open(MemStorage::from_bytes(corrupt), 4096, 0);
        match idx {
            // A flipped magic byte is caught by format validation first.
            32..=39 => assert!(matches!(r, Err(PoolError::FormatMismatch)), "byte {}", idx),
            // A flipped format-version byte is caught by version validation.
            40..=47 => assert!(matches!(r, Err(PoolError::VersionMismatch)), "byte {}", idx),
            // A flipped user-version byte is caught by the user-version gate.
            72..=79 => {
                assert!(matches!(r, Err(PoolError::UserVersionMismatch)), "byte {}", idx)
            },
            // Everything else, the checksum field itself included, is caught
            // by the checksum comparison.
            _ => assert!(matches!(r, Err(PoolError::ChecksumMismatch)), "byte {}", idx),
        }
    }
}

#[test]
fn truncated_image_fails_the_size_gate() {
    let data = vec![0xA5u8; 4096];
    let mut image = flushed_image(&data, 0);
    image.truncate(image.len() - 1);
    let r = PersistentPool::open(MemStorage::from_bytes(image), 4096, 0);
    assert!(matches!(r, Err(PoolError::SizeMismatch)));
}

#[test]
fn error_messages_are_distinct() {
    let errors = [
        PoolError::AlreadyExists,
        PoolError::SizeMismatch,
        PoolError::FormatMismatch,
        PoolError::VersionMismatch,
        PoolError::UserVersionMismatch,
        PoolError::ChecksumMismatch,
        PoolError::Io,
    ];
    for (i, a) in errors.iter().enumerate() {
        assert!(!a.message().is_empty());
        for (j, b) in errors.iter().enumerate() {
            if i != j {
                assert_ne!(a.message(), b.message());
            }
        }
    }
}
