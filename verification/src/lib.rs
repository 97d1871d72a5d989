//! A content-addressable object store: objects are identified by the
//! cryptographic digest of their bytes and read back by that digest.

pub mod buffer;
pub mod digests;
pub mod entry;
pub mod hash;
pub mod hex;
pub mod recency;
pub mod storage;
