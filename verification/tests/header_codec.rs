use datapool::clock::Timestamps;
use datapool::pool::PersistentPool;
use datapool::storage::MemStorage;
use datapool::contract::{DataPool, VolatilePool};
use datapool::errors::PoolError;
use datapool::header::Header;

fn stamp() -> Timestamps {
    Timestamps { monotonic_s: 0x0102_0304, unix_s: 0x0506_0708, monotonic_ns: 0x1111_2222_3333_4444, unix_ns: 0x5555_6666_7777_8888 }
}

#[test]
fn fresh_header_encodes_to_documented_offsets() {
    let h = Header::fresh(0xAABB_CCDD_EEFF_0011, stamp());
    let bytes = h.encode();
    assert_eq!(bytes.len(), 4096);
    // Zeroed checksum.
    assert_eq!(&bytes[0..32], &[0u8; 32]);
    // The magic signature, little-endian.
    assert_eq!(&bytes[32..40], b"SEGPOOL1");
    // The compiled format version.
    assert_eq!(&bytes[40..48], &1u64.to_le_bytes());
    // The four clock readings.
    assert_eq!(&bytes[48..52], &0x0102_0304u32.to_le_bytes());
    assert_eq!(&bytes[52..56], &0x0506_0708u32.to_le_bytes());
    assert_eq!(&bytes[56..64], &0x1111_2222_3333_4444u64.to_le_bytes());
    assert_eq!(&bytes[64..72], &0x5555_6666_7777_8888u64.to_le_bytes());
    // User version and options.
    assert_eq!(&bytes[72..80], &0xAABB_CCDD_EEFF_0011u64.to_le_bytes());
    assert_eq!(&bytes[80..88], &0u64.to_le_bytes());
    // Zero padding to the end of the page.
    assert!(bytes[88..].iter().all(|b| *b == 0));
}

#[test]
fn decode_recovers_encoded_fields() {
    let h = Header::fresh(71, stamp());
    let bytes = h.encode();
    let back = Header::decode(&bytes);
    assert_eq!(back.user_version(), 71);
    assert_eq!(back.checksum().as_slice(), &[0u8; 32]);
    assert!(back.validate(71).is_ok());
    assert_eq!(back.encode(), bytes);
}

#[test]
fn validate_names_the_first_mismatch() {
    let h = Header::fresh(5, stamp());
    assert!(h.validate(5).is_ok());
    assert!(matches!(h.validate(6), Err(PoolError::UserVersionMismatch)));

    let mut bytes = h.encode();
    bytes[33] ^= 0xFF;
    let bad_magic = Header::decode(&bytes);
    assert!(matches!(bad_magic.validate(5), Err(PoolError::FormatMismatch)));

    let mut bytes = h.encode();
    bytes[40] ^= 0xFF;
    let bad_version = Header::decode(&bytes);
    assert!(matches!(bad_version.validate(5), Err(PoolError::VersionMismatch)));
}

#[test]
fn checksum_accessors_replace_exactly_the_digest_field() {
    let mut h = Header::fresh(1, stamp());
    let digest: Vec<u8> = (0..32u8).collect();
    h.set_checksum(digest.clone());
    assert_eq!(h.checksum().as_slice(), digest.as_slice());
    let with = h.encode();
    assert_eq!(&with[0..32], digest.as_slice());
    h.clear_checksum();
    let without = h.encode();
    assert_eq!(&without[0..32], &[0u8; 32]);
    assert_eq!(&with[32..], &without[32..]);
}

#[test]
fn stored_checksum_is_an_input_sensitive_digest() {
    let t = stamp();
    let image_of = |fill: u8| -> Vec<u8> {
        let mut pool = PersistentPool::create(MemStorage::new(usize::MAX), 4096, 0).unwrap();
        for b in pool.as_mut_slice().iter_mut() {
            *b = fill;
        }
        pool.flush_at(t).unwrap();
        pool.into_storage().into_bytes()
    };
    let zeros = image_of(0);
    let ones = image_of(1);
    let zeros_again = image_of(0);
    // Same data and stamp, same checksum; different data, different checksum.
    assert_eq!(&zeros[0..32], &zeros_again[0..32]);
    assert_ne!(&zeros[0..32], &ones[0..32]);
    // The checksum is a digest, not the hashed bytes handed back.
    assert_ne!(&zeros[0..32], &[0u8; 32]);
    assert_ne!(&ones[0..32], &[1u8; 32]);
}

#[test]
fn volatile_pool_flush_is_a_successful_no_op() {
    let mut pool = VolatilePool::new(64);
    assert_eq!(pool.len(), 64);
    assert!(pool.as_slice().iter().all(|b| *b == 0));
    let slice = pool.as_mut_slice();
    slice[0] = 0x7E;
    assert!(pool.flush().is_ok());
    assert_eq!(pool.as_slice()[0], 0x7E);
    assert_eq!(pool.len(), 64);
}
