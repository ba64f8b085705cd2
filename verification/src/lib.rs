//! A durable backing store for a fixed-size byte arena: a data pool that can
//! persist its contents to a backing store behind a versioned, checksummed
//! binary header, and reload them byte-for-byte across restarts.

pub mod admin;
pub mod checksum;
pub mod clock;
pub mod contract;
pub mod errors;
pub mod header;
pub mod laws;
pub mod layout;
pub mod pool;
pub mod protocol;
pub mod region;
pub mod storage;
